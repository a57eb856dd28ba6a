//! The shutdown rule: how the process ends once the interrupt listener
//! returns.

use vstd::prelude::*;

verus! {

/// Exit code of a normal shutdown, after every connection was drained.
pub const EXIT_NORMAL: i32 = 0;

/// Exit code when the interrupt signal cannot be listened for.
pub const EXIT_NO_SIGNAL: i32 = 1;

/// The exit code once the interrupt listener returns: a received signal ends
/// the process normally, after the connections are shut down; a failure to
/// listen is fatal at once, with no retry.
pub fn exit_code(signal_received: bool) -> (r: i32)
    ensures
        r == (if signal_received {
            EXIT_NORMAL
        } else {
            EXIT_NO_SIGNAL
        }),
{
    if signal_received {
        EXIT_NORMAL
    } else {
        EXIT_NO_SIGNAL
    }
}

} // verus!
