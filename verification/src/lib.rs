//! The logic of the ARIA desktop assistant: the line protocol spoken with
//! the ARIA daemon, the reading of the chat model's streamed answers, what
//! the frontend is told during a turn, and the decisions of the chat
//! history store. Sockets, HTTP, SQLite and the Tauri shell stay outside.
use vstd::prelude::*;

pub mod text;
pub mod json;
pub mod daemon;
pub mod llm;
pub mod agent;
pub mod db;

verus! {

} // verus!
