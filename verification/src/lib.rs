//! Game rules, time keeping and message logic of a Discord casino bot,
//! verified with Verus. The Discord and database plumbing lives in `app/`.
use vstd::prelude::*;

pub mod commands;
pub mod embed;
pub mod errors;
pub mod events;
pub mod models;
pub mod random;
pub mod starboard;
pub mod text;
pub mod time;

verus! {

/// Data shared by every command invocation (none so far).
#[derive(Debug, Clone, Copy)]
pub struct Data {}

} // verus!
