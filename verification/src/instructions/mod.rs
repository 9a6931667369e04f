pub mod buy_ticket;
pub mod cancel_event;
pub mod check_in;
pub mod configure_sale;
pub mod init_event;
pub mod join_queue;
pub mod settle_randomness;
pub mod settle_stake;
pub mod update_event;
pub mod withdraw;
