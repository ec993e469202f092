//! Choice of the target process identity.
//!
//! A forced identity from the configuration always wins. Otherwise the
//! caller scans the process table for the configured name and hands the
//! matching identifiers over in scan order; the last match is taken. With
//! several live matches that choice is an arbitrary one among the name
//! collisions, not a guarantee of recency.

use vstd::prelude::*;

verus! {

/// Picks the process identity to filter on: the forced one when set, else
/// the last of the scan's matches, else none.
pub fn find_target_tgid(force_pid: Option<u32>, matches: &Vec<u32>) -> (r: Option<u32>)
    ensures
        force_pid is Some ==> r == force_pid,
        force_pid is None && matches@.len() > 0 ==> r == Some(matches@.last()),
        force_pid is None && matches@.len() == 0 ==> r is None,
{
    match force_pid {
        Some(pid) => Some(pid),
        None => {
            if matches.len() > 0 {
                Some(matches[matches.len() - 1])
            } else {
                None
            }
        },
    }
}

} // verus!
