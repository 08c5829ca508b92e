//! The conditions that can go wrong while the bridge runs, and what the
//! bridge does about each.

use vstd::prelude::*;

verus! {

/// Something that failed or was discarded. A read that times out is not among
/// them: it is the idle state of the line.
#[derive(Clone, Copy, Debug, PartialEq, Eq, Structural)]
pub enum Fault {
    /// A serial read failed for a reason other than a timeout.
    TransientReadError,
    /// A frame whose status byte lies in neither supported family.
    UnrecognizedMessage,
    /// The MIDI-out sink rejected a message.
    SinkDeliveryFailure,
    /// The serial transport could not be opened at startup.
    TransportOpenFailure,
    /// The relay could not enqueue because the consuming end is gone.
    QueueTeardownFailure,
}

/// How far a fault reaches once it has been reported.
#[derive(Clone, Copy, Debug, PartialEq, Eq, Structural)]
pub enum Response {
    /// The loop goes on with its next iteration.
    Continue,
    /// The relay stops; the dispatch loop is not affected.
    StopRelay,
    /// The process ends with a non-zero status.
    Abort,
}

/// What to do when the MIDI-out sink rejects a message.
#[derive(Clone, Copy, Debug, PartialEq, Eq, Structural)]
pub enum SinkPolicy {
    /// End the process. This is the default.
    Abort,
    /// Report the failure and go on.
    Continue,
}

/// Exit status of a process that ends on a fault.
pub const FAILURE_EXIT_CODE: i32 = 1;

/// The response that each fault calls for under a given sink policy.
pub open spec fn response_to(fault: Fault, policy: SinkPolicy) -> Response {
    match fault {
        Fault::TransientReadError => Response::Continue,
        Fault::UnrecognizedMessage => Response::Continue,
        Fault::SinkDeliveryFailure => match policy {
            SinkPolicy::Abort => Response::Abort,
            SinkPolicy::Continue => Response::Continue,
        },
        Fault::TransportOpenFailure => Response::Abort,
        Fault::QueueTeardownFailure => Response::StopRelay,
    }
}

impl SinkPolicy {
    /// The policy in force when none is chosen: a rejected message ends the
    /// process.
    pub fn default_policy() -> (policy: SinkPolicy)
        ensures
            policy == SinkPolicy::Abort,
    {
        SinkPolicy::Abort
    }
}

impl Fault {
    /// Decides how far this fault reaches. Every fault is reported first,
    /// whatever the response.
    pub fn respond(&self, policy: SinkPolicy) -> (response: Response)
        ensures
            response == response_to(*self, policy),
            response == Response::Abort <==> *self == Fault::TransportOpenFailure || (*self
                == Fault::SinkDeliveryFailure && policy == SinkPolicy::Abort),
            response == Response::StopRelay <==> *self == Fault::QueueTeardownFailure,
    {
        match *self {
            Fault::TransientReadError => Response::Continue,
            Fault::UnrecognizedMessage => Response::Continue,
            Fault::SinkDeliveryFailure => match policy {
                SinkPolicy::Abort => Response::Abort,
                SinkPolicy::Continue => Response::Continue,
            },
            Fault::TransportOpenFailure => Response::Abort,
            Fault::QueueTeardownFailure => Response::StopRelay,
        }
    }
}

} // verus!
