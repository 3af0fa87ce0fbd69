//! A chat-bot core: frame decoding, command recognition, result ranking,
//! reply formatting and the session state machine, with machine-checked
//! contracts.

pub mod command;
pub mod frame;
pub mod payload;
pub mod rank;
pub mod reply;
pub mod session;
pub mod text;
