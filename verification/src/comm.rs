//! Framing of records on the serial line.
//!
//! A frame is two synchronization bytes, then the device address, the message
//! type, the payload length and a payload slot of eight bytes, of which only
//! the first `length` count. A frame is looked for at the start of each chunk
//! that a read delivers, and nowhere else: no search further into the chunk,
//! nothing kept from one chunk to the next.

use vstd::prelude::*;

use crate::message::{MessageRaw, WireRecord, MAX_PAYLOAD};

verus! {

/// Number of synchronization bytes in front of a frame's body.
pub const PREAMBLE_LENGTH: usize = 2;

/// Length of the body of a frame: address, type, length, and the payload slot.
pub const CAN_MESSAGE_LENGTH: usize = 3 + 8;

/// Length of a whole frame.
pub const FRAME_LENGTH: usize = 13;

/// First synchronization byte: `!`.
pub const SYNC_BYTE_1: u8 = 0x21;

/// Second synchronization byte of the one family of frames there is: `|`.
pub const SYNC_BYTE_2_CAN: u8 = 0x7C;

/// Size of the buffer that a read fills.
pub const CHUNK_SIZE: usize = 512;

/// Number of records that wait in a queue before its sender is held back.
pub const CHANNEL_CAPACITY: usize = 15;

/// Why a chunk yields no record.
#[derive(Debug, Clone, Copy, PartialEq, Eq, Structural)]
pub enum FrameError {
    /// The chunk does not start with the first synchronization byte.
    Preamble,
    /// The second byte names no family of frames.
    UnknownFamily,
    /// The chunk ends before the frame does.
    Truncated,
    /// The frame declares more payload bytes than its slot holds.
    PayloadLength,
}

/// The record at the start of a chunk, or the reason why there is none.
pub open spec fn frame_of(chunk: Seq<u8>) -> Result<WireRecord, FrameError> {
    if chunk.len() == 0 {
        Err(FrameError::Truncated)
    } else if chunk[0] != SYNC_BYTE_1 {
        Err(FrameError::Preamble)
    } else if chunk.len() < PREAMBLE_LENGTH {
        Err(FrameError::Truncated)
    } else if chunk[1] != SYNC_BYTE_2_CAN {
        Err(FrameError::UnknownFamily)
    } else if chunk.len() < FRAME_LENGTH {
        Err(FrameError::Truncated)
    } else if chunk[4] > MAX_PAYLOAD {
        Err(FrameError::PayloadLength)
    } else {
        Ok(
            WireRecord {
                addr: chunk[2],
                msg_type: chunk[3],
                payload: chunk.subrange(5, 5 + chunk[4] as int),
            },
        )
    }
}

/// The thirteen bytes that carry a record: the unused end of the payload
/// slot is zero.
pub open spec fn frame_bytes(w: WireRecord) -> Seq<u8> {
    seq![SYNC_BYTE_1, SYNC_BYTE_2_CAN, w.addr, w.msg_type, w.payload.len() as u8] + w.payload
        + Seq::new((MAX_PAYLOAD - w.payload.len()) as nat, |i: int| 0u8)
}

/// What a result of `read_frame` says, over what the record holds.
pub open spec fn frame_view(r: Result<MessageRaw, FrameError>) -> Result<WireRecord, FrameError> {
    match r {
        Ok(raw) => Ok(raw@),
        Err(e) => Err(e),
    }
}

/// Takes the record at the start of a chunk. A chunk that is refused leaves
/// nothing behind: the next chunk is read as if it were the first.
pub fn read_frame(chunk: &[u8]) -> (r: Result<MessageRaw, FrameError>)
    ensures
        frame_view(r) == frame_of(chunk@),
{
    let n: usize = chunk.len();
    if n == 0 {
        return Err(FrameError::Truncated);
    }
    if chunk[0] != SYNC_BYTE_1 {
        return Err(FrameError::Preamble);
    }
    if n < PREAMBLE_LENGTH {
        return Err(FrameError::Truncated);
    }
    if chunk[1] != SYNC_BYTE_2_CAN {
        return Err(FrameError::UnknownFamily);
    }
    if n < PREAMBLE_LENGTH + CAN_MESSAGE_LENGTH {
        return Err(FrameError::Truncated);
    }
    let addr: u8 = chunk[2];
    let msg_type: u8 = chunk[3];
    let length: usize = chunk[4] as usize;
    if length > MAX_PAYLOAD {
        return Err(FrameError::PayloadLength);
    }
    let data = vstd::slice::slice_subrange(chunk, 5, 5 + length);
    Ok(MessageRaw::from_bytes(addr, msg_type, data))
}

/// Lays a record out as a frame.
pub fn write_frame(msg: &MessageRaw) -> (frame: [u8; 13])
    ensures
        frame@ == frame_bytes(msg@),
{
    let (addr, msg_type) = msg.addr_type();
    let data = msg.data_as_slice();
    let n: usize = data.len();
    let mut frame: [u8; 13] = [0; 13];
    frame[0] = SYNC_BYTE_1;
    frame[1] = SYNC_BYTE_2_CAN;
    frame[2] = addr;
    frame[3] = msg_type;
    frame[4] = msg.length();
    let mut i: usize = 0;
    while i < n
        invariant
            n == data@.len(),
            n <= 8,
            i <= n,
            frame@[0] == SYNC_BYTE_1,
            frame@[1] == SYNC_BYTE_2_CAN,
            frame@[2] == addr,
            frame@[3] == msg_type,
            frame@[4] == n,
            forall|j: int| 0 <= j < i ==> frame@[5 + j] == data@[j],
            forall|j: int| 5 + i <= j < 13 ==> frame@[j] == 0,
        decreases n - i,
    {
        frame[5 + i] = data[i];
        i += 1;
    }
    assert(frame@ =~= frame_bytes(msg@));
    frame
}

/// What a read from the line delivered.
#[derive(Debug, Clone, Copy)]
pub enum Read<'a> {
    /// The bytes that arrived; none at all when the other end has hung up.
    Chunk(&'a [u8]),
    /// The read failed.
    Failed,
}

/// What the reading side does after a read.
#[derive(Debug)]
pub enum Ingress {
    /// Hand the record on to the router.
    Forward(MessageRaw),
    /// Drop the chunk and read on.
    Skip(FrameError),
    /// The read failed for now: read again.
    Retry,
    /// The other end has hung up: stop reading, with an error.
    Disconnected,
}

/// What the reading side does after a read, over what a forwarded record holds.
pub enum IngressPlan {
    Forward(WireRecord),
    Skip(FrameError),
    Retry,
    Disconnected,
}

impl View for Ingress {
    type V = IngressPlan;

    open spec fn view(&self) -> IngressPlan {
        match self {
            Ingress::Forward(raw) => IngressPlan::Forward(raw@),
            Ingress::Skip(e) => IngressPlan::Skip(*e),
            Ingress::Retry => IngressPlan::Retry,
            Ingress::Disconnected => IngressPlan::Disconnected,
        }
    }
}

/// What is to be done after a read: a failed read is tried again, a read of
/// no bytes ends the reading, and a chunk is either forwarded as the record
/// at its start or dropped.
pub open spec fn ingress_plan(read: Read) -> IngressPlan {
    match read {
        Read::Failed => IngressPlan::Retry,
        Read::Chunk(chunk) => if chunk@.len() == 0 {
            IngressPlan::Disconnected
        } else {
            match frame_of(chunk@) {
                Ok(w) => IngressPlan::Forward(w),
                Err(e) => IngressPlan::Skip(e),
            }
        },
    }
}

/// Decides what the reading side does after a read.
pub fn ingress_step(read: Read) -> (step: Ingress)
    ensures
        step@ == ingress_plan(read),
{
    match read {
        Read::Failed => Ingress::Retry,
        Read::Chunk(chunk) => {
            if chunk.len() == 0 {
                Ingress::Disconnected
            } else {
                match read_frame(chunk) {
                    Ok(raw) => Ingress::Forward(raw),
                    Err(e) => Ingress::Skip(e),
                }
            }
        },
    }
}

/// What the writing side does when its queue has answered.
#[derive(Debug, Clone, Copy, PartialEq, Eq)]
pub enum Egress {
    /// Write this frame to the line. A failed write ends the writing, with an error.
    Write([u8; 13]),
    /// The queue is closed: stop writing, without an error.
    Finished,
}

/// What is to be done when the queue has answered, over what the next record holds.
pub open spec fn egress_plan(next: Option<WireRecord>) -> Option<Seq<u8>> {
    match next {
        Some(w) => Some(frame_bytes(w)),
        None => None,
    }
}

/// What an answer of `egress_step` says.
pub open spec fn egress_view(step: Egress) -> Option<Seq<u8>> {
    match step {
        Egress::Write(frame) => Some(frame@),
        Egress::Finished => None,
    }
}

/// Decides what the writing side does when its queue has answered: a record
/// is written as a frame, and a closed queue ends the writing.
pub fn egress_step(next: Option<&MessageRaw>) -> (step: Egress)
    ensures
        egress_view(step) == egress_plan(
            match next {
                Some(raw) => Some(raw@),
                None => None,
            },
        ),
{
    match next {
        Some(raw) => Egress::Write(write_frame(raw)),
        None => Egress::Finished,
    }
}

/// The records that a run of chunks yields, in the order of the chunks.
pub open spec fn records_of(chunks: Seq<Seq<u8>>) -> Seq<WireRecord>
    decreases chunks.len(),
{
    if chunks.len() == 0 {
        Seq::empty()
    } else {
        let before = records_of(chunks.drop_last());
        match frame_of(chunks.last()) {
            Ok(w) => before.push(w),
            Err(_) => before,
        }
    }
}

/// The chunks of a buffer of reads, each as the bytes it holds.
pub open spec fn chunk_views(chunks: Seq<Vec<u8>>) -> Seq<Seq<u8>> {
    Seq::new(chunks.len(), |i: int| chunks[i]@)
}

/// What a run of records holds.
pub open spec fn record_views(records: Seq<MessageRaw>) -> Seq<WireRecord> {
    Seq::new(records.len(), |i: int| records[i]@)
}

/// Takes the records out of a run of chunks, each chunk on its own.
pub fn read_frames(chunks: &[Vec<u8>]) -> (records: Vec<MessageRaw>)
    ensures
        record_views(records@) == records_of(chunk_views(chunks@)),
{
    let mut records: Vec<MessageRaw> = Vec::new();
    let n: usize = chunks.len();
    let mut i: usize = 0;
    assert(chunk_views(chunks@).subrange(0, 0) =~= Seq::<Seq<u8>>::empty());
    assert(record_views(records@) =~= Seq::<WireRecord>::empty());
    while i < n
        invariant
            n == chunks@.len(),
            i <= n,
            record_views(records@) == records_of(chunk_views(chunks@).subrange(0, i as int)),
        decreases n - i,
    {
        let ghost done = chunk_views(chunks@).subrange(0, i as int);
        let ghost next = chunk_views(chunks@).subrange(0, i + 1);
        let ghost old_records = records@;
        assert(next.drop_last() =~= done);
        assert(next.last() == chunks@[i as int]@);
        match read_frame(chunks[i].as_slice()) {
            Ok(raw) => {
                records.push(raw);
                assert(record_views(records@) =~= record_views(old_records).push(raw@));
            },
            Err(_) => {},
        }
        i += 1;
    }
    assert(chunk_views(chunks@).subrange(0, n as int) =~= chunk_views(chunks@));
    records
}

/// A record laid out as a frame is read back from it, whatever follows the
/// frame in the chunk.
pub proof fn lemma_frame_round_trip(w: WireRecord, tail: Seq<u8>)
    requires
        w.wf(),
    ensures
        frame_bytes(w).len() == FRAME_LENGTH,
        frame_of(frame_bytes(w) + tail) == Ok::<WireRecord, FrameError>(w),
{
    let chunk = frame_bytes(w) + tail;
    assert(chunk.subrange(5, 5 + chunk[4] as int) =~= w.payload);
}

/// A nonempty chunk whose first byte is not the first synchronization byte is
/// refused, whatever else it holds.
pub proof fn lemma_preamble_rejection(chunk: Seq<u8>)
    requires
        chunk.len() > 0,
        chunk[0] != SYNC_BYTE_1,
    ensures
        frame_of(chunk) == Err::<WireRecord, FrameError>(FrameError::Preamble),
{
}

/// Chunks are read one by one: what a run yields is what its first part
/// yields, followed by what the rest yields.
pub proof fn lemma_records_of_concat(first: Seq<Seq<u8>>, rest: Seq<Seq<u8>>)
    ensures
        records_of(first + rest) == records_of(first) + records_of(rest),
    decreases rest.len(),
{
    if rest.len() == 0 {
        assert(first + rest =~= first);
        assert(records_of(first) + records_of(rest) =~= records_of(first));
    } else {
        lemma_records_of_concat(first, rest.drop_last());
        assert((first + rest).drop_last() =~= first + rest.drop_last());
        assert((first + rest).last() == rest.last());
        match frame_of(rest.last()) {
            Ok(w) => {
                assert((records_of(first) + records_of(rest.drop_last())).push(w) =~= records_of(
                    first,
                ) + records_of(rest.drop_last()).push(w));
            },
            Err(_) => {},
        }
    }
}

/// A chunk that is refused changes nothing for the chunks around it: the run
/// yields what it would yield without that chunk.
pub proof fn lemma_rejected_chunk_is_local(before: Seq<Seq<u8>>, bad: Seq<u8>, after: Seq<Seq<u8>>)
    requires
        frame_of(bad) is Err,
    ensures
        records_of(before + seq![bad] + after) == records_of(before + after),
{
    lemma_records_of_concat(before + seq![bad], after);
    lemma_records_of_concat(before, seq![bad]);
    lemma_records_of_concat(before, after);
    assert(seq![bad].drop_last() =~= Seq::<Seq<u8>>::empty());
    assert(seq![bad].last() == bad);
    assert(records_of(Seq::<Seq<u8>>::empty()) =~= Seq::<WireRecord>::empty());
    assert(records_of(seq![bad]) =~= Seq::<WireRecord>::empty());
    assert(records_of(before) + Seq::<WireRecord>::empty() =~= records_of(before));
}

} // verus!
