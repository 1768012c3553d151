//! Start-up of the media framework in the process that plays a stream.

use vstd::prelude::*;
use vstd::string::*;

verus! {

/// The message with which start-up is given up when the media framework
/// failed to initialise with the given detail.
pub open spec fn init_failure_text(detail: Seq<char>) -> Seq<char> {
    "failed to init gstreamer: "@ + detail
}

/// Judges the outcome of initialising the media framework.
///
/// The caller makes the attempt and hands in what came back: `Ok` when the
/// framework is up, `Err` with the framework's own description otherwise. The
/// result is `Ok` in the first case; in the second it is the message with
/// which the process must stop, since nothing can be played without the
/// framework.
pub fn init(started: Result<(), String>) -> (r: Result<(), String>)
    ensures
        started is Ok ==> r is Ok,
        started matches Err(detail) ==> r matches Err(message) && message@ == init_failure_text(
            detail@,
        ),
{
    match started {
        Ok(()) => Ok(()),
        Err(detail) => {
            let mut message = "failed to init gstreamer: ".to_owned();
            message.append(detail.as_str());
            Err(message)
        },
    }
}

} // verus!
