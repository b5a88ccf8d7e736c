//! The command dispatch and session coordination core of a chat bot that
//! looks up trading cards and plays audio in voice channels.

pub mod args;
pub mod bot;
pub mod card;
pub mod errors;
pub mod help;
pub mod lands;
pub mod laws;
pub mod presence;
pub mod registry;
pub mod reply;
pub mod router;
pub mod session;
pub mod step;
pub mod tables;
pub mod text;
pub mod voice;
