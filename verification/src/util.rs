//! Protocol-side helpers: the game clock and the command parser.

pub mod gametime;
pub mod uci;
