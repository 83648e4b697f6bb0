//! Finding the RLBot process that is already running.

use vstd::prelude::*;
use crate::text::{parse_decimal, parse_unsigned, views};

verus! {

/// The port RLBot prefers.
pub const IDEAL_RLBOT_PORT: u16 = 23233;

/// The port an RLBot process listens on, given its arguments: its first argument
/// read as a port number, `None` when it has none or it is no number.
pub fn find_existing_process(process_args: &Vec<String>) -> (r: Option<u16>)
    ensures
        process_args@.len() < 2 ==> r is None,
        process_args@.len() >= 2 ==> match parse_unsigned(process_args@[1]@, 65535) {
            Some(p) => r == Some(p as u16),
            None => r is None,
        },
{
    if process_args.len() < 2 {
        return None;
    }
    match parse_decimal(process_args[1].as_str(), 65535u64) {
        Some(p) => Some(p as u16),
        None => None,
    }
}

} // verus!
