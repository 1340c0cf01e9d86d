//! Verified core of the aiHelper desktop assistant: the activity database,
//! its queries and migrations, the text processing around them, the AI tool
//! catalogue and dispatcher, and the input-monitor state machine.
use vstd::prelude::*;

pub mod commands;
pub mod config;
pub mod context;
pub mod db;
pub mod extract;
pub mod input_monitor;
pub mod insights;
pub mod records;
pub mod sql;
pub mod statements;
pub mod suggest;
pub mod text;
pub mod tools;

verus! {

/// The title of the window in front. Where no window system is queried, the
/// title is "Unknown".
pub fn get_foreground_window_title() -> (r: String)
    ensures
        r@ == "Unknown"@,
{
    "Unknown".to_string()
}

} // verus!
