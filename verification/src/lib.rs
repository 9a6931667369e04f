use vstd::prelude::*;

pub mod constants;
pub mod error;
pub mod instructions;
pub mod laws;
pub mod logs;
pub mod properties;
pub mod state;
pub mod text;

verus! {

/// Answers that the program is up.
pub fn health() -> (r: Result<(), error::EventError>)
    ensures
        r == Ok::<(), error::EventError>(()),
{
    Ok(())
}

} // verus!
