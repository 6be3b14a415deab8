//! Polls, choices and votes: when a poll closes, how its votes are counted,
//! and the decisions a request to the voting service goes through.
pub mod clock;
pub mod flow_laws;
pub mod handlers;
pub mod ids;
pub mod laws;
pub mod models;
pub mod server;
pub mod service;
pub mod tally;

pub use clock::is_poll_closed;
pub use tally::count_votes;
