//! The format of the engine's log file.
use vstd::prelude::*;
use crate::text::{decimal, write_decimal};

verus! {

/// One log line: `[<seconds since the epoch>] - <message>` and a newline.
pub open spec fn log_line(timestamp: u64, message: Seq<char>) -> Seq<char> {
    "["@ + decimal(timestamp as nat) + "] - "@ + message + "\n"@
}

/// The entry appended to the log for `message` written at `timestamp`
/// (seconds since the Unix epoch).
pub fn log_entry(timestamp: u64, message: &str) -> (entry: String)
    ensures
        entry@ == log_line(timestamp, message@),
{
    let mut entry = "[".to_string();
    write_decimal(&mut entry, timestamp);
    entry.append("] - ");
    entry.append(message);
    entry.append("\n");
    assert(entry@ =~= log_line(timestamp, message@));
    entry
}

} // verus!
