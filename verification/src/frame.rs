//! Frame codec: fixed-length command frames, and recognition of the
//! acknowledgement and error-response patterns in inbound frames.
//!
//! A command frame is the 2-byte preamble `0x11 0xff`, the command id in
//! big-endian order, the payload, and zero padding up to the fixed frame
//! length. The device acknowledges a command by echoing its first four bytes;
//! it rejects one by echoing them with a `0xff` sentinel inserted at offset 2.

use vstd::prelude::*;

verus! {

/// Total length of every frame on the wire.
pub const FRAME_LENGTH: usize = 20;

/// High byte of a command id.
pub open spec fn command_high(command: u16) -> u8 {
    (command / 256) as u8
}

/// Low byte of a command id.
pub open spec fn command_low(command: u16) -> u8 {
    (command % 256) as u8
}

/// The four header bytes of the frame that carries `command`.
pub open spec fn spec_header(command: u16) -> Seq<u8> {
    seq![0x11u8, 0xffu8, command_high(command), command_low(command)]
}

/// The whole padded frame for `command` with `payload`.
pub open spec fn spec_frame(command: u16, payload: Seq<u8>) -> Seq<u8>
    recommends
        payload.len() + 4 <= FRAME_LENGTH,
{
    spec_header(command) + payload + Seq::new(
        (FRAME_LENGTH - 4 - payload.len()) as nat,
        |i: int| 0u8,
    )
}

/// An inbound frame acknowledges the command with header `header` when it
/// starts with the same four bytes.
pub open spec fn is_ack(header: Seq<u8>, frame: Seq<u8>) -> bool
    recommends
        header.len() == 4,
{
    &&& frame.len() >= 4
    &&& frame.subrange(0, 4) == header
}

/// An inbound frame reports an error for the command with header `header`
/// when it echoes the header with a `0xff` byte inserted at offset 2.
pub open spec fn is_error_response(header: Seq<u8>, frame: Seq<u8>) -> bool
    recommends
        header.len() == 4,
{
    &&& frame.len() >= 5
    &&& frame[0] == header[0]
    &&& frame[1] == header[1]
    &&& frame[2] == 0xffu8
    &&& frame[3] == header[2]
    &&& frame[4] == header[3]
}

/// An inbound frame that is either an acknowledgement or an error response;
/// anything else is an unsolicited interrupt.
pub open spec fn is_response(header: Seq<u8>, frame: Seq<u8>) -> bool
    recommends
        header.len() == 4,
{
    is_ack(header, frame) || is_error_response(header, frame)
}

/// Builds the padded frame for `command` with `payload`.
pub fn encode_frame(command: u16, payload: &Vec<u8>) -> (frame: Vec<u8>)
    requires
        payload@.len() + 4 <= FRAME_LENGTH,
    ensures
        frame@ == spec_frame(command, payload@),
        frame@.len() == FRAME_LENGTH,
{
    let mut frame: Vec<u8> = Vec::new();
    frame.push(0x11);
    frame.push(0xff);
    frame.push((command / 256) as u8);
    frame.push((command % 256) as u8);
    let mut i: usize = 0;
    while i < payload.len()
        invariant
            i <= payload@.len(),
            payload@.len() + 4 <= FRAME_LENGTH,
            frame@ == spec_header(command) + payload@.take(i as int),
        decreases payload@.len() - i,
    {
        frame.push(payload[i]);
        i = i + 1;
        assert(frame@ =~= spec_header(command) + payload@.take(i as int));
    }
    assert(payload@.take(payload@.len() as int) =~= payload@);
    while frame.len() < FRAME_LENGTH
        invariant
            spec_header(command).len() + payload@.len() <= frame@.len() <= FRAME_LENGTH,
            frame@.take(4 + payload@.len() as int) == spec_header(command) + payload@,
            forall|j: int| 4 + payload@.len() <= j < frame@.len() ==> frame@[j] == 0u8,
        decreases FRAME_LENGTH - frame@.len(),
    {
        frame.push(0);
    }
    assert(frame@ =~= spec_frame(command, payload@));
    frame
}

/// The four header bytes echoed back by an acknowledgement of `command`.
pub fn encode_header(command: u16) -> (header: Vec<u8>)
    ensures
        header@ == spec_header(command),
{
    let mut header: Vec<u8> = Vec::new();
    header.push(0x11);
    header.push(0xff);
    header.push((command / 256) as u8);
    header.push((command % 256) as u8);
    assert(header@ =~= spec_header(command));
    header
}

/// How one inbound frame relates to the command awaiting acknowledgement.
pub enum FrameClass {
    /// The frame acknowledges the command; it carries the response payload
    /// (the frame with the echoed header stripped).
    Ack(Vec<u8>),
    /// The device rejected the command.
    ErrorResponse,
    /// An unsolicited interrupt (a key event) that arrived in between.
    Interrupt,
}

/// Classifies one inbound frame against the header of the command that was
/// sent: acknowledgements win over error responses, and everything else is
/// an unsolicited interrupt.
pub fn classify_frame(header: &Vec<u8>, frame: &Vec<u8>) -> (class: FrameClass)
    requires
        header@.len() == 4,
    ensures
        class matches FrameClass::Ack(payload) ==> is_ack(header@, frame@) && payload@
            == frame@.skip(4),
        is_ack(header@, frame@) ==> class is Ack,
        class is ErrorResponse <==> !is_ack(header@, frame@) && is_error_response(
            header@,
            frame@,
        ),
        class is Interrupt <==> !is_response(header@, frame@),
{
    if frame.len() >= 4 && frame[0] == header[0] && frame[1] == header[1] && frame[2] == header[2]
        && frame[3] == header[3] {
        assert(frame@.subrange(0, 4) =~= header@);
        let mut payload: Vec<u8> = Vec::new();
        let mut i: usize = 4;
        while i < frame.len()
            invariant
                4 <= i <= frame@.len(),
                payload@ == frame@.subrange(4, i as int),
            decreases frame@.len() - i,
        {
            payload.push(frame[i]);
            i = i + 1;
            assert(payload@ =~= frame@.subrange(4, i as int));
        }
        FrameClass::Ack(payload)
    } else if frame.len() >= 5 && frame[0] == header[0] && frame[1] == header[1] && frame[2]
        == 0xff && frame[3] == header[2] && frame[4] == header[3] {
        assert(!is_ack(header@, frame@)) by {
            if frame@.subrange(0, 4) == header@ {
                assert(frame@[2] == header@[2]);
            }
        }
        FrameClass::ErrorResponse
    } else {
        assert(!is_ack(header@, frame@)) by {
            if frame@.len() >= 4 && frame@.subrange(0, 4) == header@ {
                assert(frame@[0] == header@[0]);
                assert(frame@[1] == header@[1]);
                assert(frame@[2] == header@[2]);
                assert(frame@[3] == header@[3]);
            }
        }
        FrameClass::Interrupt
    }
}

} // verus!
