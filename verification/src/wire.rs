//! The messages that go to the peer: one player's input for one frame, and the
//! checksum of the match at a settled frame.

use vstd::prelude::*;
use vstd::bytes::{
    lemma_auto_spec_u32_to_from_le_bytes, lemma_auto_spec_u64_to_from_le_bytes,
    spec_u32_from_le_bytes, spec_u32_to_le_bytes, spec_u64_from_le_bytes, spec_u64_to_le_bytes,
    u32_from_le_bytes, u32_to_le_bytes, u64_from_le_bytes, u64_to_le_bytes,
};
use vstd::slice::slice_subrange;
use crate::input::BoxInput;

verus! {

/// The length of an encoded message, in bytes.
pub const WIRE_LENGTH: usize = 6;

/// One player's input for one frame.
#[derive(Clone, Copy, Debug, PartialEq, Eq, Structural)]
pub struct WireMessage {
    /// The slot of the player who sends it.
    pub handle: u8,
    /// The frame that the input is for.
    pub frame: u32,
    pub input: BoxInput,
}

impl WireMessage {
    /// A message names one of the two slots and carries an input byte with its
    /// five high bits clear.
    pub open spec fn wf(self) -> bool {
        self.handle < 2 && self.input.inp < 8
    }

    /// The bytes of a message: the slot, the frame in four bytes with the
    /// lowest first, and the input byte.
    pub open spec fn to_bytes_spec(self) -> Seq<u8> {
        seq![self.handle] + spec_u32_to_le_bytes(self.frame) + seq![self.input.inp]
    }

    /// The message that six bytes stand for, if they stand for one: the first
    /// names a slot and the last has its five high bits clear.
    pub open spec fn from_bytes_spec(bytes: Seq<u8>) -> Option<WireMessage> {
        if bytes.len() == WIRE_LENGTH && bytes[0] < 2 && bytes[5] < 8 {
            Some(
                WireMessage {
                    handle: bytes[0],
                    frame: spec_u32_from_le_bytes(bytes.subrange(1, 5)),
                    input: BoxInput { inp: bytes[5] },
                },
            )
        } else {
            None
        }
    }

    /// Writes the message out for the wire.
    pub fn to_bytes(&self) -> (bytes: Vec<u8>)
        ensures
            bytes@ == self.to_bytes_spec(),
            bytes@.len() == WIRE_LENGTH,
    {
        let mut bytes: Vec<u8> = Vec::new();
        bytes.push(self.handle);
        let mut frame = u32_to_le_bytes(self.frame);
        bytes.append(&mut frame);
        bytes.push(self.input.inp);
        bytes
    }

    /// Reads a message off the wire. Anything but six bytes that name a slot
    /// and carry a three-bit input is malformed.
    pub fn from_bytes(bytes: &[u8]) -> (message: Option<WireMessage>)
        ensures
            message == WireMessage::from_bytes_spec(bytes@),
            message matches Some(read) ==> read.wf(),
    {
        if bytes.len() != WIRE_LENGTH {
            return None;
        }
        let handle: u8 = bytes[0];
        let inp: u8 = bytes[5];
        if handle >= 2 || inp >= 8 {
            return None;
        }
        let frame: u32 = u32_from_le_bytes(slice_subrange(bytes, 1, 5));
        Some(WireMessage { handle, frame, input: BoxInput { inp } })
    }
}

/// Reading what was written gives the message back, for every well-formed
/// message; and the bytes of a message that is not well formed are malformed.
pub proof fn lemma_wire_round_trip(message: WireMessage)
    ensures
        message.wf() ==> WireMessage::from_bytes_spec(message.to_bytes_spec()) == Some(message),
        !message.wf() ==> WireMessage::from_bytes_spec(message.to_bytes_spec()).is_none(),
{
    lemma_auto_spec_u32_to_from_le_bytes();
    let bytes = message.to_bytes_spec();
    assert(spec_u32_to_le_bytes(message.frame).len() == 4);
    assert(bytes.subrange(1, 5) =~= spec_u32_to_le_bytes(message.frame));
    assert(bytes[0] == message.handle);
    assert(bytes[5] == message.input.inp);
}

/// Two messages with the same bytes are the same message.
pub proof fn lemma_wire_injective(first: WireMessage, second: WireMessage)
    requires
        first.to_bytes_spec() == second.to_bytes_spec(),
    ensures
        first == second,
{
    lemma_auto_spec_u32_to_from_le_bytes();
    let a = first.to_bytes_spec();
    let b = second.to_bytes_spec();
    assert(spec_u32_to_le_bytes(first.frame).len() == 4);
    assert(spec_u32_to_le_bytes(second.frame).len() == 4);
    assert(a[0] == first.handle && b[0] == second.handle);
    assert(a[5] == first.input.inp && b[5] == second.input.inp);
    assert(a.subrange(1, 5) =~= spec_u32_to_le_bytes(first.frame));
    assert(b.subrange(1, 5) =~= spec_u32_to_le_bytes(second.frame));
    assert(spec_u32_from_le_bytes(spec_u32_to_le_bytes(first.frame)) == first.frame);
    assert(spec_u32_from_le_bytes(spec_u32_to_le_bytes(second.frame)) == second.frame);
}

/// The length of an encoded checksum report, in bytes.
pub const REPORT_LENGTH: usize = 13;

/// What one peer found its match to be at one frame.
#[derive(Clone, Copy, Debug, PartialEq, Eq, Structural)]
pub struct ChecksumReport {
    /// The slot of the player who sends it.
    pub handle: u8,
    /// The frame that the checksum was taken at.
    pub frame: u32,
    pub checksum: u64,
}

impl ChecksumReport {
    /// A report names one of the two slots.
    pub open spec fn wf(self) -> bool {
        self.handle < 2
    }

    /// The bytes of a report: the slot, the frame in four bytes and the
    /// checksum in eight, each with its lowest byte first.
    pub open spec fn to_bytes_spec(self) -> Seq<u8> {
        seq![self.handle] + spec_u32_to_le_bytes(self.frame) + spec_u64_to_le_bytes(self.checksum)
    }

    /// The report that thirteen bytes stand for, if the first names a slot.
    pub open spec fn from_bytes_spec(bytes: Seq<u8>) -> Option<ChecksumReport> {
        if bytes.len() == REPORT_LENGTH && bytes[0] < 2 {
            Some(
                ChecksumReport {
                    handle: bytes[0],
                    frame: spec_u32_from_le_bytes(bytes.subrange(1, 5)),
                    checksum: spec_u64_from_le_bytes(bytes.subrange(5, 13)),
                },
            )
        } else {
            None
        }
    }

    /// Writes the report out for the wire.
    pub fn to_bytes(&self) -> (bytes: Vec<u8>)
        ensures
            bytes@ == self.to_bytes_spec(),
            bytes@.len() == REPORT_LENGTH,
    {
        let mut bytes: Vec<u8> = Vec::new();
        bytes.push(self.handle);
        let mut frame = u32_to_le_bytes(self.frame);
        bytes.append(&mut frame);
        let mut checksum = u64_to_le_bytes(self.checksum);
        bytes.append(&mut checksum);
        bytes
    }

    /// Reads a report off the wire. Anything but thirteen bytes of which the
    /// first names a slot is malformed.
    pub fn from_bytes(bytes: &[u8]) -> (report: Option<ChecksumReport>)
        ensures
            report == ChecksumReport::from_bytes_spec(bytes@),
            report matches Some(read) ==> read.wf(),
    {
        if bytes.len() != REPORT_LENGTH {
            return None;
        }
        let handle: u8 = bytes[0];
        if handle >= 2 {
            return None;
        }
        let frame: u32 = u32_from_le_bytes(slice_subrange(bytes, 1, 5));
        let checksum: u64 = u64_from_le_bytes(slice_subrange(bytes, 5, 13));
        Some(ChecksumReport { handle, frame, checksum })
    }
}

/// Reading what was written gives the report back, for every well-formed
/// report; and the bytes of a report that is not well formed are malformed.
pub proof fn lemma_report_round_trip(report: ChecksumReport)
    ensures
        report.wf() ==> ChecksumReport::from_bytes_spec(report.to_bytes_spec()) == Some(report),
        !report.wf() ==> ChecksumReport::from_bytes_spec(report.to_bytes_spec()).is_none(),
{
    lemma_auto_spec_u32_to_from_le_bytes();
    lemma_auto_spec_u64_to_from_le_bytes();
    let bytes = report.to_bytes_spec();
    assert(spec_u32_to_le_bytes(report.frame).len() == 4);
    assert(spec_u64_to_le_bytes(report.checksum).len() == 8);
    assert(bytes.subrange(1, 5) =~= spec_u32_to_le_bytes(report.frame));
    assert(bytes.subrange(5, 13) =~= spec_u64_to_le_bytes(report.checksum));
    assert(bytes[0] == report.handle);
}

} // verus!
