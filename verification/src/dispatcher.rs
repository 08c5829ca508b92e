//! One iteration of the dispatch loop: what to do with the outcome of a
//! serial read, and which bytes to write back to the serial line.
//!
//! The loop itself belongs to the caller, who owns the serial transport and
//! the MIDI-out sink. Each time round it attempts a read of one frame, has
//! `read_outcome` tell how the read ended, hands the outcome to
//! `poll_and_dispatch` and carries out what comes back: forward the message
//! if there is one, report the fault if there is one, and write the returned
//! bytes one at a time in the order given.

use vstd::prelude::*;
use crate::fault::{Fault, Response, SinkPolicy, response_to};
use crate::frame::{RawFrame, FRAME_LEN};
use crate::message::{lemma_masks_in_range, lemma_status_parts, MidiMessage, MAX_CHANNEL, MAX_DATA};
use crate::queue::ByteQueue;

verus! {

/// How an attempt to read one frame from the serial line ended.
#[derive(Clone, Copy, Debug, PartialEq, Eq, Structural)]
pub enum ReadOutcome {
    /// Three bytes arrived.
    Frame(RawFrame),
    /// Nothing arrived within the read timeout: the line is idle.
    TimedOut,
    /// The read failed: for a reason other than a timeout, or at a timeout
    /// that cut a frame short, so that the bytes that had arrived are dropped.
    Failed,
}

/// The outcome of a read that asked for one frame, ended with the given bytes
/// in hand, and ended at its timeout or not.
pub open spec fn outcome_of(received: Seq<u8>, timed_out: bool) -> ReadOutcome {
    if received.len() == FRAME_LEN {
        ReadOutcome::Frame(
            RawFrame { status: received[0], data1: received[1], data2: received[2] },
        )
    } else if received.len() == 0 && timed_out {
        ReadOutcome::TimedOut
    } else {
        ReadOutcome::Failed
    }
}

/// Tells how a read that asked for one frame ended.
///
/// Three bytes are a frame. A timeout with no byte in hand is the idle state
/// of the line. Everything else is a failed read, which is reported; that
/// includes the timeout that comes after one or two bytes, because those
/// bytes are dropped and nothing is dropped in silence.
pub fn read_outcome(received: &[u8], timed_out: bool) -> (outcome: ReadOutcome)
    ensures
        outcome == outcome_of(received@, timed_out),
        outcome matches ReadOutcome::Frame(frame) ==> frame.bytes() == received@,
        outcome is Frame <==> received@.len() == FRAME_LEN,
        outcome == ReadOutcome::TimedOut <==> received@.len() == 0 && timed_out,
{
    match RawFrame::from_slice(received) {
        Some(frame) => ReadOutcome::Frame(frame),
        None => if received.len() == 0 && timed_out {
            ReadOutcome::TimedOut
        } else {
            ReadOutcome::Failed
        },
    }
}

/// What the loop does about the outcome of a read.
#[derive(Clone, Copy, Debug, PartialEq, Eq, Structural)]
pub enum Dispatch {
    /// Hand the message to the MIDI-out sink.
    Forward(MidiMessage),
    /// Report the frame as unrecognized and drop it.
    Discard(RawFrame),
    /// Report the failed read and go on.
    ReadFailed,
    /// Do nothing and report nothing.
    Idle,
}

impl Dispatch {
    /// The message that goes to the sink, if any.
    pub open spec fn forwarded(self) -> Option<MidiMessage> {
        match self {
            Dispatch::Forward(msg) => Some(msg),
            _ => None,
        }
    }

    /// The fault that is reported, if any.
    pub open spec fn fault(self) -> Option<Fault> {
        match self {
            Dispatch::Forward(_) => None,
            Dispatch::Discard(_) => Some(Fault::UnrecognizedMessage),
            Dispatch::ReadFailed => Some(Fault::TransientReadError),
            Dispatch::Idle => None,
        }
    }

    /// The message that goes to the sink, if any.
    pub fn message(&self) -> (msg: Option<MidiMessage>)
        ensures
            msg == self.forwarded(),
    {
        match *self {
            Dispatch::Forward(msg) => Some(msg),
            _ => None,
        }
    }

    /// The fault that is reported, if any.
    pub fn reported_fault(&self) -> (fault: Option<Fault>)
        ensures
            fault == self.fault(),
    {
        match *self {
            Dispatch::Forward(_) => None,
            Dispatch::Discard(_) => Some(Fault::UnrecognizedMessage),
            Dispatch::ReadFailed => Some(Fault::TransientReadError),
            Dispatch::Idle => None,
        }
    }
}

/// The dispatch that each read outcome calls for.
pub open spec fn dispatch_of(outcome: ReadOutcome) -> Dispatch {
    match outcome {
        ReadOutcome::Frame(frame) => match frame.message() {
            Some(msg) => Dispatch::Forward(msg),
            None => Dispatch::Discard(frame),
        },
        ReadOutcome::TimedOut => Dispatch::Idle,
        ReadOutcome::Failed => Dispatch::ReadFailed,
    }
}

/// Decides what to do about the outcome of a read.
///
/// A frame of a supported family is forwarded as the message it stands for. A
/// frame of any other status byte is never forwarded; it is reported as
/// unrecognized. A timeout is the idle state of the line: nothing is
/// forwarded and nothing is reported. Any other failure is reported, and the
/// loop goes on.
pub fn dispatch(outcome: ReadOutcome) -> (decision: Dispatch)
    ensures
        decision == dispatch_of(outcome),
        outcome matches ReadOutcome::Frame(frame) ==> decision.forwarded() == frame.message(),
        outcome matches ReadOutcome::Frame(frame) ==> (frame.is_recognized() <==> decision
            is Forward),
        outcome matches ReadOutcome::Frame(frame) ==> (!frame.is_recognized() <==> decision
            == Dispatch::Discard(frame)),
        decision is Discard ==> decision.fault() == Some(Fault::UnrecognizedMessage),
        decision is Forward ==> decision.fault() is None,
        outcome == ReadOutcome::TimedOut ==> decision.forwarded() is None,
        outcome == ReadOutcome::TimedOut ==> decision.fault() is None,
        outcome == ReadOutcome::Failed ==> decision.forwarded() is None,
        outcome == ReadOutcome::Failed ==> decision.fault() == Some(Fault::TransientReadError),
        decision.forwarded() is None && outcome != ReadOutcome::TimedOut ==> decision.fault()
            is Some,
        decision.forwarded() matches Some(msg) ==> msg.in_range(),
        decision.forwarded() matches Some(MidiMessage::NoteOn { velocity, .. }) ==> velocity >= 1,
{
    match outcome {
        ReadOutcome::Frame(frame) => match frame.classify() {
            Some(msg) => Dispatch::Forward(msg),
            None => Dispatch::Discard(frame),
        },
        ReadOutcome::TimedOut => Dispatch::Idle,
        ReadOutcome::Failed => Dispatch::ReadFailed,
    }
}

/// What one iteration of the loop has to carry out.
#[derive(Debug)]
pub struct Iteration {
    /// What to do about the read.
    pub decision: Dispatch,
    /// The bytes to write to the serial line, each in a write of its own, in
    /// this order.
    pub writes: Vec<u8>,
}

/// Runs the decisions of one iteration: classifies the outcome of the read
/// and, whatever that outcome was, drains the queue.
///
/// The bytes to write are all that waited in the queue, oldest first; with an
/// empty queue there are none.
pub fn poll_and_dispatch(outcome: ReadOutcome, queue: &mut ByteQueue) -> (step: Iteration)
    requires
        old(queue).wf(),
    ensures
        final(queue).wf(),
        step.decision == dispatch_of(outcome),
        step.writes@ == old(queue)@,
        final(queue)@ == Seq::<u8>::empty(),
        final(queue).delivered() == old(queue).delivered() + step.writes@,
        final(queue).sent() == old(queue).sent(),
        final(queue).is_open() == old(queue).is_open(),
{
    let decision = dispatch(outcome);
    let writes = queue.try_receive_all();
    Iteration { decision, writes }
}

/// The fault that the sink's answer for a forwarded message amounts to.
pub open spec fn sink_fault_of(accepted: bool) -> Option<Fault> {
    if accepted {
        None
    } else {
        Some(Fault::SinkDeliveryFailure)
    }
}

/// Tells what is to be reported once the sink has answered for a forwarded
/// message: nothing if it accepted the message, a delivery failure if it did
/// not. A rejected message is a fault under every policy; the policy decides
/// only how the loop goes on afterwards.
pub fn sink_fault(accepted: bool) -> (fault: Option<Fault>)
    ensures
        fault == sink_fault_of(accepted),
        fault is Some <==> !accepted,
{
    if accepted {
        None
    } else {
        Some(Fault::SinkDeliveryFailure)
    }
}

/// Decides how the loop goes on once the sink has answered for a forwarded
/// message: on as before if it accepted the message, and as the policy says if
/// it did not. What is to be reported is told by `sink_fault`.
pub fn after_forward(accepted: bool, policy: SinkPolicy) -> (response: Response)
    ensures
        response == match sink_fault_of(accepted) {
            Some(fault) => response_to(fault, policy),
            None => Response::Continue,
        },
        accepted ==> response == Response::Continue,
        !accepted ==> response == response_to(Fault::SinkDeliveryFailure, policy),
        response == Response::Abort <==> !accepted && policy == SinkPolicy::Abort,
        response != Response::StopRelay,
{
    match sink_fault(accepted) {
        Some(fault) => fault.respond(policy),
        None => Response::Continue,
    }
}

/// Whatever the read brought, a message that is forwarded goes out in range:
/// its channel is at most 15 and both data bytes are at most 127, in the
/// message and in its three wire bytes, and the status byte carries the
/// family of the message in its high four bits. A Note On that is forwarded
/// has a velocity of at least one.
pub proof fn lemma_forwarded_in_range(outcome: ReadOutcome, msg: MidiMessage)
    requires
        dispatch_of(outcome).forwarded() == Some(msg),
    ensures
        msg.in_range(),
        msg matches MidiMessage::NoteOn { velocity, .. } ==> velocity >= 1,
        msg.wire().len() == 3,
        msg.wire()[0] == msg.family() + msg.channel(),
        msg.wire()[0] & 0xf0 == msg.family(),
        msg.wire()[0] & 0x0f == msg.channel(),
        msg.wire()[0] & 0x0f <= MAX_CHANNEL,
        msg.wire()[1] == msg.data1(),
        msg.wire()[1] <= MAX_DATA,
        msg.wire()[2] == msg.data2(),
        msg.wire()[2] <= MAX_DATA,
{
    let frame = outcome->Frame_0;
    lemma_masks_in_range(frame.status);
    lemma_masks_in_range(frame.data1);
    lemma_masks_in_range(frame.data2);
    lemma_status_parts(msg.family(), msg.channel());
}

/// A read that times out on an idle line is silent: no message is forwarded
/// and no fault is reported.
pub proof fn lemma_timeout_is_silent()
    ensures
        outcome_of(Seq::<u8>::empty(), true) == ReadOutcome::TimedOut,
        dispatch_of(ReadOutcome::TimedOut) == Dispatch::Idle,
        dispatch_of(ReadOutcome::TimedOut).forwarded() is None,
        dispatch_of(ReadOutcome::TimedOut).fault() is None,
{
}

/// A frame outside both families is never forwarded and is always reported.
pub proof fn lemma_unrecognized_is_reported(frame: RawFrame)
    requires
        !frame.is_recognized(),
    ensures
        dispatch_of(ReadOutcome::Frame(frame)).forwarded() is None,
        dispatch_of(ReadOutcome::Frame(frame)).fault() == Some(Fault::UnrecognizedMessage),
{
}

/// A read that drops bytes is never silent: if it ends with fewer than a
/// frame's bytes in hand, and with at least one, nothing is forwarded and a
/// read error is reported, timeout or not.
pub proof fn lemma_cut_short_is_reported(received: Seq<u8>, timed_out: bool)
    requires
        0 < received.len() < FRAME_LEN,
    ensures
        outcome_of(received, timed_out) == ReadOutcome::Failed,
        dispatch_of(outcome_of(received, timed_out)).forwarded() is None,
        dispatch_of(outcome_of(received, timed_out)).fault() == Some(Fault::TransientReadError),
{
}

} // verus!
