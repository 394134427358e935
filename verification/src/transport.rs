//! Demultiplexing of inbound frames during a command exchange.
//!
//! After a command frame is written, the device may interleave unsolicited
//! key-event interrupts with the acknowledgement. The demultiplexer scans the
//! inbound frames in arrival order: the first acknowledgement or error
//! response decides the exchange, and every frame before it is kept, in
//! order, for later event processing — key events are never dropped because
//! they raced a command.

use vstd::prelude::*;

use crate::frame::{is_ack, is_error_response, is_response, classify_frame, FrameClass};

verus! {

/// How a command exchange ended.
pub enum ExchangeResult {
    /// The device acknowledged the command; carries the response payload
    /// (the acknowledgement frame with the echoed header stripped).
    Ack(Vec<u8>),
    /// The device answered with an error response.
    ErrorResponse,
    /// The retry budget was exhausted without an acknowledgement or error.
    NoAck,
}

/// Scans `frames` in order for the first response to the command with the
/// given four-byte `header`, looking at no more than `budget` frames.
/// Returns the outcome together with every earlier frame — the unsolicited
/// interrupts — in arrival order.
pub fn demux_frames(header: &Vec<u8>, frames: &Vec<Vec<u8>>, budget: usize) -> (r: (
    ExchangeResult,
    Vec<Vec<u8>>,
))
    requires
        header@.len() == 4,
    ensures
        r.1@.len() <= frames@.len(),
        r.1@.len() <= budget,
        forall|j: int| 0 <= j < r.1@.len() ==> r.1@[j]@ == frames@[j]@,
        forall|j: int| 0 <= j < r.1@.len() ==> !is_response(header@, frames@[j]@),
        r.0 matches ExchangeResult::Ack(payload) ==> {
            let k = r.1@.len() as int;
            &&& k < frames@.len()
            &&& k < budget
            &&& is_ack(header@, frames@[k]@)
            &&& payload@ == frames@[k]@.skip(4)
        },
        r.0 is ErrorResponse ==> {
            let k = r.1@.len() as int;
            &&& k < frames@.len()
            &&& k < budget
            &&& !is_ack(header@, frames@[k]@)
            &&& is_error_response(header@, frames@[k]@)
        },
        r.0 is NoAck ==> r.1@.len() == if frames@.len() < budget {
            frames@.len() as int
        } else {
            budget as int
        },
{
    let mut queued: Vec<Vec<u8>> = Vec::new();
    let mut i: usize = 0;
    while i < frames.len() && i < budget
        invariant
            header@.len() == 4,
            i <= frames@.len(),
            i <= budget,
            queued@.len() == i,
            forall|j: int| 0 <= j < i ==> queued@[j]@ == frames@[j]@,
            forall|j: int| 0 <= j < i ==> !is_response(header@, frames@[j]@),
        decreases frames@.len() - i,
    {
        match classify_frame(header, &frames[i]) {
            FrameClass::Ack(payload) => {
                return (ExchangeResult::Ack(payload), queued);
            },
            FrameClass::ErrorResponse => {
                return (ExchangeResult::ErrorResponse, queued);
            },
            FrameClass::Interrupt => {
                let frame = frames[i].clone();
                assert(frame@ =~= frames@[i as int]@);
                queued.push(frame);
                i = i + 1;
            },
        }
    }
    (ExchangeResult::NoAck, queued)
}

} // verus!
