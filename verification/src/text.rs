use vstd::prelude::*;
use vstd::utf8::*;
use vstd::string::*;

use crate::constants::SLUG_MAX;
use crate::error::EventError;

verus! {

broadcast use vstd::utf8::encode_utf8_valid_utf8;

/// The number of bytes in the UTF-8 encoding of `s` (what `len()` returns).
pub open spec fn byte_len(s: Seq<char>) -> nat {
    encode_utf8(s).len()
}

/// A byte allowed in a slug: a lowercase latin letter (`a`..=`z`), a digit
/// (`0`..=`9`) or a hyphen (`-`).
pub open spec fn is_slug_byte(b: u8) -> bool {
    (0x61 <= b && b <= 0x7a) || (0x30 <= b && b <= 0x39) || b == 0x2d
}

/// A slug is 1 to `SLUG_MAX` bytes, each a lowercase latin letter, a digit or a hyphen.
pub open spec fn slug_is_valid(slug: &str) -> bool {
    &&& slug@.len() > 0
    &&& slug.spec_bytes().len() <= SLUG_MAX
    &&& forall|i: int| 0 <= i < slug.spec_bytes().len() ==> is_slug_byte(#[trigger] slug.spec_bytes()[i])
}

/// Checks that `slug` can name an event.
pub fn validate_slug(slug: &str) -> (r: Result<(), EventError>)
    ensures
        r == (if slug_is_valid(slug) { Ok(()) } else { Err(EventError::InvalidSlug) }),
{
    if slug.is_empty() || slug.len() > SLUG_MAX {
        return Err(EventError::InvalidSlug);
    }
    let bytes = slug.as_bytes();
    let n = bytes.len();
    let mut i: usize = 0;
    while i < n
        invariant
            n == bytes@.len(),
            bytes@ == slug.spec_bytes(),
            0 <= i <= n,
            forall|j: int| 0 <= j < i ==> is_slug_byte(#[trigger] bytes@[j]),
        decreases n - i,
    {
        let b = bytes[i];
        if !((0x61 <= b && b <= 0x7a) || (0x30 <= b && b <= 0x39) || b == 0x2d) {
            return Err(EventError::InvalidSlug);
        }
        i = i + 1;
    }
    Ok(())
}

/// Whether `r` is what `truncate_bytes(s, max)` gives: `s` itself when it is
/// at most `max` bytes long; else its longest prefix of at most `max` bytes
/// that ends on a character boundary.
pub open spec fn is_truncation(s: Seq<u8>, max: int, r: Seq<u8>) -> bool {
    if s.len() <= max {
        r == s
    } else {
        &&& r.len() <= max
        &&& r == s.subrange(0, r.len() as int)
        &&& is_char_boundary(s, r.len() as int)
        &&& forall|j: int| r.len() < j <= max ==> !is_char_boundary(s, j)
    }
}

/// The longest prefix of `s` of at most `max` bytes that does not split a
/// character.
pub fn truncate_bytes(s: &str, max: usize) -> (r: &str)
    ensures
        is_truncation(s.spec_bytes(), max as int, r.spec_bytes()),
{
    let n = s.as_bytes().len();
    if n <= max {
        s
    } else {
        let ghost b = s.spec_bytes();
        let mut end = max;
        while end > 0 && !s.is_char_boundary(end)
            invariant
                b == s.spec_bytes(),
                end <= max < b.len(),
                forall|j: int| end < j <= max ==> !is_char_boundary(b, j),
            decreases end,
        {
            end = end - 1;
        }
        assert(valid_utf8(b));
        assert(is_char_boundary(b, end as int));
        let (head, _tail) = s.split_at(end);
        assert(head.spec_bytes() =~= b.subrange(0, end as int));
        assert(head.spec_bytes().len() == end);
        head
    }
}

/// Truncation has one answer: two results of truncating the same bytes to
/// the same length are equal.
pub proof fn lemma_truncation_unique(s: Seq<u8>, max: int, r1: Seq<u8>, r2: Seq<u8>)
    requires
        is_truncation(s, max, r1),
        is_truncation(s, max, r2),
    ensures
        r1 == r2,
{
    if s.len() > max {
        if r1.len() < r2.len() {
            assert(is_char_boundary(s, r2.len() as int));
        } else if r2.len() < r1.len() {
            assert(is_char_boundary(s, r1.len() as int));
        }
        assert(r1.len() == r2.len());
    }
}

/// Truncating twice is truncating once: what truncation gives is already
/// short enough, and truncates to itself.
pub proof fn lemma_truncation_idempotent(s: Seq<u8>, max: int, r: Seq<u8>)
    requires
        is_truncation(s, max, r),
    ensures
        r.len() <= max || r == s,
        is_truncation(r, max, r) || max < 0,
{
}


/// The character of a decimal digit.
pub open spec fn digit_char(d: nat) -> char {
    if d == 0 { '0' }
    else if d == 1 { '1' }
    else if d == 2 { '2' }
    else if d == 3 { '3' }
    else if d == 4 { '4' }
    else if d == 5 { '5' }
    else if d == 6 { '6' }
    else if d == 7 { '7' }
    else if d == 8 { '8' }
    else { '9' }
}

/// The decimal notation of `n`, most significant digit first, without
/// leading zeros.
pub open spec fn decimal(n: nat) -> Seq<char>
    decreases n,
{
    if n < 10 {
        seq![digit_char(n)]
    } else {
        decimal(n / 10).push(digit_char(n % 10))
    }
}

fn digit_str(d: u32) -> (r: &'static str)
    requires
        d < 10,
    ensures
        r@ == seq![digit_char(d as nat)],
{
    if d == 0 {
        proof { reveal_strlit("0"); }
        "0"
    } else if d == 1 {
        proof { reveal_strlit("1"); }
        "1"
    } else if d == 2 {
        proof { reveal_strlit("2"); }
        "2"
    } else if d == 3 {
        proof { reveal_strlit("3"); }
        "3"
    } else if d == 4 {
        proof { reveal_strlit("4"); }
        "4"
    } else if d == 5 {
        proof { reveal_strlit("5"); }
        "5"
    } else if d == 6 {
        proof { reveal_strlit("6"); }
        "6"
    } else if d == 7 {
        proof { reveal_strlit("7"); }
        "7"
    } else if d == 8 {
        proof { reveal_strlit("8"); }
        "8"
    } else {
        proof { reveal_strlit("9"); }
        "9"
    }
}

/// Writes `n` in decimal.
pub fn decimal_string(n: u32) -> (r: String)
    ensures
        r@ == decimal(n as nat),
    decreases n,
{
    if n < 10 {
        String::from_str(digit_str(n))
    } else {
        let mut s = decimal_string(n / 10);
        s.append(digit_str(n % 10));
        s
    }
}

/// The name of a ticket NFT before truncation: the event's title, then ` #`
/// and the ticket's number.
pub open spec fn ticket_name_chars(title: Seq<char>, number: nat) -> Seq<char> {
    title + seq![' ', '#'] + decimal(number)
}

/// Writes `"{title} #{number}"`.
pub fn ticket_name(title: &str, number: u32) -> (r: String)
    ensures
        r@ == ticket_name_chars(title@, number as nat),
{
    let mut s = String::from_str(title);
    proof { reveal_strlit(" #"); }
    s.append(" #");
    let digits = decimal_string(number);
    s.append(digits.as_str());
    s
}

} // verus!
