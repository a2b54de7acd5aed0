//! Subgrid: the logic of a systems dashboard — its interface state machines,
//! the decisions of its HTTP exchanges, the engine's message handling and log
//! format, and the text processing they rest on.
use vstd::prelude::*;

pub mod explorer;
pub mod fetch;
pub mod language;
pub mod logger;
pub mod models;
pub mod news;
pub mod protocol;
pub mod scheduler;
pub mod server;
pub mod snippet;
pub mod text;
pub mod uri;
pub mod workbench;

verus! {

} // verus!
