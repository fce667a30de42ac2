//! The stream framer: an accumulation buffer that turns arbitrary inbound byte
//! chunks into validated packets, tolerating noise, partial delivery and
//! resynchronization after corruption.
//!
//! `push` appends a chunk and drops the oldest bytes when the buffer would
//! exceed its cap, so the buffer is bounded however much noise arrives.
//! `next_packet` consumes at most one complete frame, and its result is
//! exactly `spec_framer_step` of the buffer: scan for the magic, discard the
//! noise before it, wait for a complete frame without consuming anything, and
//! on a spurious header or a checksum failure drop the offending bytes and
//! rescan.

use vstd::prelude::*;
use vstd::slice::{slice_subrange, slice_to_vec};
use crate::lebytes::{spec_from_le32, from_le32, spec_le32, lemma_le32_round_trip};
use crate::wire::{
    spec_command_from_code, command_from_code, spec_packet_from_bytes, Packet, PacketView,
    lemma_packet_round_trip, lemma_packet_magic_bytes, lemma_command_code_inverse,
    MAX_PAYLOAD_SIZE, PACKET_HEADER_SIZE, PACKET_MIN_SIZE, PACKET_MAGIC_BYTE0, PACKET_MAGIC_BYTE1,
};

verus! {

/// Cap on the accumulation buffer: when no frame boundary can be found, the
/// buffer never holds more than this many bytes.
pub const FRAMER_BUFFER_CAP: usize = 4096;

/// Whether the two bytes at `i` are the packet magic.
pub open spec fn spec_is_magic_at(b: Seq<u8>, i: int) -> bool {
    &&& 0 <= i
    &&& i + 2 <= b.len()
    &&& b[i] == PACKET_MAGIC_BYTE0
    &&& b[i + 1] == PACKET_MAGIC_BYTE1
}

/// Whether the packet magic occurs nowhere in `b`.
pub open spec fn spec_magic_free(b: Seq<u8>) -> bool {
    forall|j: int| !spec_is_magic_at(b, j)
}

/// The position of the first packet magic in `b`, if there is one.
pub open spec fn spec_find_magic(b: Seq<u8>) -> Option<int>
    decreases b.len(),
{
    if b.len() < 2 {
        None
    } else if b[0] == PACKET_MAGIC_BYTE0 && b[1] == PACKET_MAGIC_BYTE1 {
        Some(0)
    } else {
        match spec_find_magic(b.skip(1)) {
            None => None,
            Some(i) => Some(i + 1),
        }
    }
}

/// `spec_find_magic` finds the first magic: the position it returns carries
/// the magic and no earlier position does; `None` means no position does.
pub proof fn lemma_find_magic_props(b: Seq<u8>)
    ensures
        match spec_find_magic(b) {
            Some(i) => 0 <= i && i + 2 <= b.len() && spec_is_magic_at(b, i) && (forall|j: int|
                0 <= j < i ==> !spec_is_magic_at(b, j)),
            None => spec_magic_free(b),
        },
    decreases b.len(),
{
    if b.len() < 2 {
    } else if b[0] == PACKET_MAGIC_BYTE0 && b[1] == PACKET_MAGIC_BYTE1 {
    } else {
        let t = b.skip(1);
        lemma_find_magic_props(t);
        assert forall|j: int| 1 <= j && spec_is_magic_at(b, j) implies spec_is_magic_at(
            t,
            j - 1,
        ) by {
            assert(t[j - 1] == b[j]);
            assert(t[j] == b[j + 1]);
        }
        assert forall|j: int| 0 <= j && spec_is_magic_at(t, j) implies spec_is_magic_at(
            b,
            j + 1,
        ) by {
            assert(t[j] == b[j + 1]);
            assert(t[j + 1] == b[j + 2]);
        }
        match spec_find_magic(t) {
            None => {
                assert forall|j: int| !spec_is_magic_at(b, j) by {
                    if 1 <= j && spec_is_magic_at(b, j) {
                        assert(spec_is_magic_at(t, j - 1));
                    }
                }
            },
            Some(k) => {
                assert(spec_is_magic_at(b, k + 1));
                assert forall|j: int| 0 <= j < k + 1 implies !spec_is_magic_at(b, j) by {
                    if 1 <= j && spec_is_magic_at(b, j) {
                        assert(spec_is_magic_at(t, j - 1));
                    }
                }
            },
        }
    }
}

/// The buffer after an inbound chunk is appended: the concatenation, with
/// its oldest bytes dropped when it would exceed the cap.
pub open spec fn spec_framer_push(b: Seq<u8>, chunk: Seq<u8>) -> Seq<u8> {
    let total = b + chunk;
    if total.len() <= FRAMER_BUFFER_CAP {
        total
    } else {
        total.skip(total.len() - FRAMER_BUFFER_CAP)
    }
}

/// Chunking independence: feeding two chunks one after the other leaves the
/// same buffer as feeding their concatenation, so how the transport splits
/// a stream does not change what the framer sees.
pub proof fn lemma_framer_push_split(b: Seq<u8>, c1: Seq<u8>, c2: Seq<u8>)
    ensures
        spec_framer_push(spec_framer_push(b, c1), c2) == spec_framer_push(b, c1 + c2),
{
    let a = spec_framer_push(b, c1);
    assert((b + c1) + c2 =~= b + (c1 + c2));
    if (b + c1).len() <= FRAMER_BUFFER_CAP {
        assert(a + c2 =~= b + (c1 + c2));
        assert(spec_framer_push(a, c2) == spec_framer_push(b, c1 + c2));
    } else {
        assert(a =~= (b + c1).skip((b + c1).len() - FRAMER_BUFFER_CAP));
        assert(a.len() == FRAMER_BUFFER_CAP);
        assert(spec_framer_push(a, c2) =~= spec_framer_push(b, c1 + c2));
    }
}

/// What the framer keeps when the buffer holds no magic at all: at most the
/// one trailing byte that could still begin a magic.
pub open spec fn spec_tail_keep(b: Seq<u8>) -> Seq<u8> {
    if b.len() > 0 && b.last() == PACKET_MAGIC_BYTE0 {
        seq![PACKET_MAGIC_BYTE0]
    } else {
        Seq::empty()
    }
}

/// One framing step on a buffer: the buffer that remains, and the packet
/// yielded, if any. Scan for the magic and discard what precedes it; with a
/// known command and a bounded declared length, wait (consuming nothing) until
/// the whole frame is present, then decode it; a spurious header loses the two
/// magic bytes and a frame that fails its checksum loses its whole extent,
/// and scanning resumes.
pub open spec fn spec_framer_step(b: Seq<u8>) -> (Seq<u8>, Option<PacketView>)
    decreases b.len(),
    via spec_framer_step_decreases
{
    match spec_find_magic(b) {
        None => (spec_tail_keep(b), None),
        Some(i) => {
            let t = b.skip(i);
            if t.len() < PACKET_HEADER_SIZE {
                (t, None)
            } else if spec_command_from_code(t[2]) is None || spec_from_le32(
                t.subrange(3, 7),
            ) > MAX_PAYLOAD_SIZE {
                spec_framer_step(t.skip(2))
            } else {
                let total = PACKET_MIN_SIZE + spec_from_le32(t.subrange(3, 7));
                if t.len() < total {
                    (t, None)
                } else {
                    match spec_packet_from_bytes(t.take(total as int)) {
                        Some(pv) => (t.skip(total as int), Some(pv)),
                        None => spec_framer_step(t.skip(total as int)),
                    }
                }
            }
        },
    }
}

#[via_fn]
proof fn spec_framer_step_decreases(b: Seq<u8>) {
    lemma_find_magic_props(b);
}

/// One framing step never grows the buffer, and consumes at least a whole
/// minimum-sized frame whenever it yields a packet.
pub proof fn lemma_framer_step_len(b: Seq<u8>)
    ensures
        spec_framer_step(b).0.len() <= b.len(),
        spec_framer_step(b).1 is Some ==> spec_framer_step(b).0.len() + PACKET_MIN_SIZE <= b.len(),
    decreases b.len(),
{
    lemma_find_magic_props(b);
    match spec_find_magic(b) {
        None => {},
        Some(i) => {
            let t = b.skip(i);
            if t.len() < PACKET_HEADER_SIZE {
            } else if spec_command_from_code(t[2]) is None || spec_from_le32(
                t.subrange(3, 7),
            ) > MAX_PAYLOAD_SIZE {
                lemma_framer_step_len(t.skip(2));
            } else {
                let total = PACKET_MIN_SIZE + spec_from_le32(t.subrange(3, 7));
                if t.len() < total {
                } else if spec_packet_from_bytes(t.take(total as int)) is Some {
                } else {
                    lemma_framer_step_len(t.skip(total as int));
                }
            }
        },
    }
}

/// The accumulation buffer that recovers packet boundaries from a byte stream.
pub struct Framer {
    buffer: Vec<u8>,
}

impl View for Framer {
    type V = Seq<u8>;

    closed spec fn view(&self) -> Seq<u8> {
        self.buffer@
    }
}

/// Finds the first packet magic in `buf`.
fn find_magic(buf: &Vec<u8>) -> (r: Option<usize>)
    ensures
        match r {
            Some(i) => spec_find_magic(buf@) == Some(i as int) && i + 2 <= buf@.len(),
            None => spec_find_magic(buf@) is None,
        },
{
    if buf.len() < 2 {
        proof {
            lemma_find_magic_props(buf@);
            if spec_find_magic(buf@) is Some {
                let k = spec_find_magic(buf@)->Some_0;
                assert(spec_is_magic_at(buf@, k));
            }
        }
        return None;
    }
    let mut i: usize = 0;
    while i <= buf.len() - 2
        invariant
            buf@.len() >= 2,
            i <= buf@.len(),
            forall|j: int| 0 <= j < i ==> !spec_is_magic_at(buf@, j),
        decreases buf@.len() - i,
    {
        if buf[i] == PACKET_MAGIC_BYTE0 && buf[i + 1] == PACKET_MAGIC_BYTE1 {
            proof {
                lemma_find_magic_props(buf@);
                assert(spec_is_magic_at(buf@, i as int));
            }
            return Some(i);
        }
        i = i + 1;
    }
    proof {
        lemma_find_magic_props(buf@);
        if spec_find_magic(buf@) is Some {
            let k = spec_find_magic(buf@)->Some_0;
            assert(spec_is_magic_at(buf@, k));
            assert(k < i);
        }
    }
    None
}

impl Framer {
    /// Creates an empty framer.
    pub fn new() -> (r: Framer)
        ensures
            r@ == Seq::<u8>::empty(),
    {
        Framer { buffer: Vec::new() }
    }

    /// How many bytes are waiting to be framed.
    pub fn buffered(&self) -> (r: usize)
        ensures
            r == self@.len(),
    {
        self.buffer.len()
    }

    /// Drops the first `n` buffered bytes.
    fn drop_front(&mut self, n: usize)
        requires
            n <= old(self)@.len(),
        ensures
            final(self)@ == old(self)@.skip(n as int),
    {
        let len = self.buffer.len();
        let nv = slice_to_vec(slice_subrange(self.buffer.as_slice(), n, len));
        self.buffer = nv;
        proof {
            assert(self@ =~= old(self)@.skip(n as int));
        }
    }

    /// Appends an inbound chunk; when the buffer would exceed its cap, the
    /// oldest bytes are dropped, so the buffer stays bounded however much
    /// unframeable data arrives.
    pub fn push(&mut self, chunk: &[u8])
        ensures
            final(self)@.len() <= FRAMER_BUFFER_CAP,
            final(self)@ == spec_framer_push(old(self)@, chunk@),
    {
        let ghost total = old(self)@ + chunk@;
        if chunk.len() >= FRAMER_BUFFER_CAP {
            let start = chunk.len() - FRAMER_BUFFER_CAP;
            let nv = slice_to_vec(slice_subrange(chunk, start, chunk.len()));
            self.buffer = nv;
            proof {
                if total.len() <= FRAMER_BUFFER_CAP {
                    assert(self@ =~= total);
                } else {
                    assert(self@ =~= total.skip(total.len() - FRAMER_BUFFER_CAP));
                }
            }
        } else if self.buffer.len() > FRAMER_BUFFER_CAP - chunk.len() {
            let keep = FRAMER_BUFFER_CAP - chunk.len();
            let start = self.buffer.len() - keep;
            let len = self.buffer.len();
            let mut nv = slice_to_vec(slice_subrange(self.buffer.as_slice(), start, len));
            nv.extend_from_slice(chunk);
            self.buffer = nv;
            proof {
                assert(self@ =~= total.skip(total.len() - FRAMER_BUFFER_CAP));
            }
        } else {
            self.buffer.extend_from_slice(chunk);
            proof {
                assert(self@ =~= total);
            }
        }
    }

    /// Extracts the next packet from the buffer, if a complete valid frame is
    /// present; otherwise retains everything that could still become one.
    /// The result and the remaining buffer are exactly `spec_framer_step` of
    /// the old buffer.
    pub fn next_packet(&mut self) -> (r: Option<Packet>)
        ensures
            final(self)@ == spec_framer_step(old(self)@).0,
            match r {
                Some(p) => spec_framer_step(old(self)@).1 == Some(p@) && p@.wf(),
                None => spec_framer_step(old(self)@).1 is None,
            },
            final(self)@.len() <= old(self)@.len(),
            r is Some ==> final(self)@.len() + PACKET_MIN_SIZE <= old(self)@.len(),
    {
        loop
            invariant
                spec_framer_step(old(self)@) == spec_framer_step(self@),
                self@.len() <= old(self)@.len(),
            decreases self@.len(),
        {
            let ghost b = self@;
            match find_magic(&self.buffer) {
                None => {
                    let n = self.buffer.len();
                    if n > 0 {
                        let last = self.buffer[n - 1];
                        self.buffer.clear();
                        if last == PACKET_MAGIC_BYTE0 {
                            self.buffer.push(PACKET_MAGIC_BYTE0);
                        }
                    }
                    proof {
                        assert(self@ =~= spec_tail_keep(b));
                        assert(spec_framer_step(b) == (spec_tail_keep(b), None::<PacketView>));
                    }
                    return None;
                },
                Some(i) => {
                    if i > 0 {
                        self.drop_front(i);
                    }
                    let ghost t = b.skip(i as int);
                    proof {
                        assert(self@ =~= t);
                    }
                    if self.buffer.len() < PACKET_HEADER_SIZE {
                        proof {
                            assert(spec_framer_step(b) == (t, None::<PacketView>));
                        }
                        return None;
                    }
                    let cmd = command_from_code(self.buffer[2]);
                    let length = from_le32(slice_subrange(self.buffer.as_slice(), 3, 7));
                    proof {
                        assert(self.buffer@.subrange(3, 7) == t.subrange(3, 7));
                    }
                    if cmd.is_none() || length as usize > MAX_PAYLOAD_SIZE {
                        self.drop_front(2);
                        proof {
                            assert(spec_framer_step(b) == spec_framer_step(t.skip(2)));
                        }
                        continue ;
                    }
                    let total = PACKET_MIN_SIZE + length as usize;
                    if self.buffer.len() < total {
                        proof {
                            assert(spec_framer_step(b) == (t, None::<PacketView>));
                        }
                        return None;
                    }
                    let frame = slice_subrange(self.buffer.as_slice(), 0, total);
                    proof {
                        assert(frame@ == t.take(total as int));
                    }
                    match Packet::from_bytes(frame) {
                        Ok(p) => {
                            self.drop_front(total);
                            proof {
                                assert(spec_framer_step(b) == (
                                    t.skip(total as int),
                                    Some(p@),
                                ));
                            }
                            return Some(p);
                        },
                        Err(_) => {
                            self.drop_front(total);
                            proof {
                                assert(spec_framer_step(b) == spec_framer_step(
                                    t.skip(total as int),
                                ));
                            }
                            continue ;
                        },
                    }
                },
            }
        }
    }
}

/// No magic hides in a magic-free prefix: the first magic of `noise + c` is
/// where `c`, beginning with the two magic bytes, begins.
pub proof fn lemma_find_magic_concat(noise: Seq<u8>, c: Seq<u8>)
    requires
        spec_magic_free(noise),
        c.len() >= 2,
        c[0] == PACKET_MAGIC_BYTE0,
        c[1] == PACKET_MAGIC_BYTE1,
    ensures
        spec_find_magic(noise + c) == Some(noise.len() as int),
    decreases noise.len(),
{
    let b = noise + c;
    if noise.len() == 0 {
        assert(b =~= c);
        assert(b[0] == PACKET_MAGIC_BYTE0 && b[1] == PACKET_MAGIC_BYTE1);
    } else {
        assert(b[0] == noise[0]);
        if noise.len() == 1 {
            assert(b[1] == c[0]);
            assert(b[1] != PACKET_MAGIC_BYTE1);
        } else {
            assert(b[1] == noise[1]);
            assert(!spec_is_magic_at(noise, 0));
        }
        assert(!(b[0] == PACKET_MAGIC_BYTE0 && b[1] == PACKET_MAGIC_BYTE1));
        let tail = noise.skip(1);
        assert forall|j: int| !spec_is_magic_at(tail, j) by {
            if 0 <= j && spec_is_magic_at(tail, j) {
                assert(tail[j] == noise[j + 1]);
                assert(tail[j + 1] == noise[j + 2]);
                assert(spec_is_magic_at(noise, j + 1));
            }
        }
        lemma_find_magic_concat(tail, c);
        assert(b.skip(1) =~= tail + c);
    }
}

/// Partial delivery consumes nothing: a buffer holding a strict prefix of a
/// well-formed frame (at least the two magic bytes of it) yields no packet
/// and keeps every byte for the next attempt.
pub proof fn lemma_framer_partial_frame(v: PacketView, k: int)
    requires
        v.wf(),
        2 <= k < v.spec_bytes().len(),
    ensures
        spec_framer_step(v.spec_bytes().take(k)) == (
            v.spec_bytes().take(k),
            None::<PacketView>,
        ),
{
    let frame = v.spec_bytes();
    let b = frame.take(k);
    lemma_packet_magic_bytes();
    assert(frame.len() == PACKET_MIN_SIZE + v.data.len());
    assert(b[0] == PACKET_MAGIC_BYTE0 && b[1] == PACKET_MAGIC_BYTE1);
    assert(spec_find_magic(b) == Some(0int));
    let t = b.skip(0);
    assert(t =~= b);
    if b.len() >= PACKET_HEADER_SIZE {
        assert(t[2] == frame[2]);
        lemma_command_code_inverse(v.command);
        assert(t.subrange(3, 7) =~= frame.subrange(3, 7));
        assert(frame.subrange(3, 7) =~= spec_le32(v.length));
        lemma_le32_round_trip(v.length);
        assert(spec_from_le32(t.subrange(3, 7)) == v.length);
        assert(PACKET_MIN_SIZE + v.length > t.len());
    }
}

/// Framer resynchronization: a buffer holding magic-free noise, then one
/// well-formed frame, then the rest of the stream, yields exactly that frame
/// and leaves exactly the rest.
#[verifier::rlimit(60)]
pub proof fn lemma_framer_resync(noise: Seq<u8>, v: PacketView, rest: Seq<u8>)
    requires
        v.wf(),
        spec_magic_free(noise),
    ensures
        spec_framer_step(noise + v.spec_bytes() + rest) == (rest, Some(v)),
{
    let frame = v.spec_bytes();
    lemma_packet_magic_bytes();
    assert(frame.len() == PACKET_MIN_SIZE + v.data.len());
    assert(frame[0] == PACKET_MAGIC_BYTE0 && frame[1] == PACKET_MAGIC_BYTE1);
    let c = frame + rest;
    let b = noise + frame + rest;
    assert(b =~= noise + c);
    lemma_find_magic_concat(noise, c);
    assert(spec_find_magic(b) == Some(noise.len() as int));
    let t = b.skip(noise.len() as int);
    assert(t =~= c);
    assert(t.len() >= PACKET_MIN_SIZE);
    assert(t[2] == frame[2]);
    lemma_command_code_inverse(v.command);
    assert(t.subrange(3, 7) =~= frame.subrange(3, 7));
    assert(frame.subrange(3, 7) =~= spec_le32(v.length));
    lemma_le32_round_trip(v.length);
    let length = spec_from_le32(t.subrange(3, 7));
    assert(length == v.length);
    let total = PACKET_MIN_SIZE + length;
    assert(total == frame.len());
    assert(t.take(total as int) =~= frame);
    lemma_packet_round_trip(v);
    assert(spec_packet_from_bytes(t.take(total as int)) == Some(v));
    assert(t.skip(total as int) =~= rest);
}

/// The two-frame resynchronization law: noise, a frame, more noise, then a
/// second frame yield exactly the two frames, in order, and nothing else.
pub proof fn lemma_framer_resync_two(n1: Seq<u8>, v1: PacketView, n2: Seq<u8>, v2: PacketView)
    requires
        v1.wf(),
        v2.wf(),
        spec_magic_free(n1),
        spec_magic_free(n2),
    ensures
        ({
            let stream = n1 + v1.spec_bytes() + n2 + v2.spec_bytes();
            let first = spec_framer_step(stream);
            let second = spec_framer_step(first.0);
            &&& first.1 == Some(v1)
            &&& second.1 == Some(v2)
            &&& second.0 == Seq::<u8>::empty()
        }),
{
    let stream = n1 + v1.spec_bytes() + n2 + v2.spec_bytes();
    let rest = n2 + v2.spec_bytes();
    assert(stream =~= n1 + v1.spec_bytes() + rest);
    lemma_framer_resync(n1, v1, rest);
    assert(rest =~= n2 + v2.spec_bytes() + Seq::<u8>::empty());
    lemma_framer_resync(n2, v2, Seq::<u8>::empty());
}

} // verus!
