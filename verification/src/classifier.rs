//! Decides whether a container stop calls for a replacement run.

use crate::text::{contains_seq, text_contains};
use vstd::prelude::*;

verus! {

/// Exit code that the platform reports for a container killed by SIGKILL,
/// which is how an out-of-memory kill shows.
pub const OOM_EXIT_CODE: i32 = 137;

/// Part of a stop code that marks a stop asked for by a user or an operator.
pub const USER_INITIATED_MARKER: &'static str = "UserInitiated";

/// The stop code carries the mark of a stop that somebody asked for.
pub open spec fn user_initiated(stop_code: Seq<char>) -> bool {
    contains_seq(stop_code, USER_INITIATED_MARKER@)
}

/// A stop is restart-worthy when the container was killed and nobody asked
/// for the stop.
pub open spec fn restart_worthy(exit_code: int, stop_code: Seq<char>) -> bool {
    exit_code == OOM_EXIT_CODE && !user_initiated(stop_code)
}

/// Whether a stop with this exit code and stop code was an unplanned,
/// memory-related kill.
pub fn is_memory_related_stop(exit_code: i32, stopped_code: &str) -> (worthy: bool)
    ensures
        worthy == restart_worthy(exit_code as int, stopped_code@),
        worthy <==> (exit_code == 137 && !contains_seq(stopped_code@, "UserInitiated"@)),
{
    if exit_code != OOM_EXIT_CODE {
        return false;
    }
    !text_contains(stopped_code, USER_INITIATED_MARKER)
}

} // verus!
