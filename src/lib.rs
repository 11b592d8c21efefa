//! Control-shell core for a mesh-radio companion device: text helpers, the
//! event fan-out and wait engine, the session store, the contact resolver,
//! the contact filter language and bulk dispatcher, and the command
//! interpreter front end.

pub mod text;
pub mod number;
pub mod error;
pub mod contact;
pub mod filter;
pub mod words;
pub mod dispatch;
pub mod keyed;
pub mod session;
pub mod events;
pub mod interpreter;
pub mod channels;
pub mod display;
pub mod cli;
pub mod clock;
pub mod config;
pub mod completion;
pub mod edits;
pub mod replies;
