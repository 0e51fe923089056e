//! Length-prefixed frames on an hx body: each frame is its payload length as
//! a little-endian `u32`, then the payload. Outbound payloads are cut into
//! chunks of a fixed size; inbound bytes arrive in chunks of any size and are
//! cut back into frames, either whole or streamed: a streamed frame starts
//! once a bounded part of its payload is in.

use std::collections::VecDeque;
use vstd::prelude::*;

verus! {

/// The size of a full outbound payload chunk.
pub const PAYLOAD_CHUNK_SIZE: usize = 1024;

/// The little-endian bytes of `x`.
pub open spec fn le_u32(x: u32) -> Seq<u8> {
    seq![
        (x % 0x100) as u8,
        ((x / 0x100) % 0x100) as u8,
        ((x / 0x1_0000) % 0x100) as u8,
        (x / 0x100_0000) as u8,
    ]
}

/// The value of four little-endian bytes.
pub open spec fn le_value(b: Seq<u8>) -> int {
    b[0] + b[1] * 0x100 + b[2] * 0x1_0000 + b[3] * 0x100_0000
}

/// A frame carrying `payload`.
pub open spec fn encode_frame(payload: Seq<u8>) -> Seq<u8> {
    le_u32(payload.len() as u32) + payload
}

/// The chunks of `chunks` laid end to end.
pub open spec fn flatten(chunks: Seq<Seq<u8>>) -> Seq<u8>
    decreases chunks.len(),
{
    if chunks.len() == 0 {
        Seq::empty()
    } else {
        flatten(chunks.drop_last()) + chunks.last()
    }
}

/// The payload of the first complete frame at the start of `bytes` and the
/// bytes after it, or `None` when `bytes` does not start with a complete
/// frame yet.
pub open spec fn first_frame(bytes: Seq<u8>) -> Option<(Seq<u8>, Seq<u8>)> {
    if bytes.len() < 4 {
        None
    } else {
        let n = le_value(bytes.take(4));
        if bytes.len() < 4 + n {
            None
        } else {
            Some((bytes.subrange(4, 4 + n), bytes.skip(4 + n)))
        }
    }
}

/// Why a frame could not be written or read.
#[derive(Clone, Copy, Debug, PartialEq, Eq, Structural)]
pub enum FrameError {
    /// The payload would exceed `u32::MAX` bytes.
    PayloadOverflow,
    /// The stream ended inside a frame.
    UnexpectedEnd,
}

/// The description of a frame error.
pub open spec fn frame_error_text(e: FrameError) -> Seq<char> {
    match e {
        FrameError::PayloadOverflow => "outbound frame payload exceeds u32::MAX octets"@,
        FrameError::UnexpectedEnd => "unexpected end of stream"@,
    }
}

impl FrameError {
    /// Describe the error in words.
    pub fn message(&self) -> (r: String)
        ensures
            r@ == frame_error_text(*self),
    {
        match self {
            FrameError::PayloadOverflow => String::from_str(
                "outbound frame payload exceeds u32::MAX octets",
            ),
            FrameError::UnexpectedEnd => String::from_str("unexpected end of stream"),
        }
    }
}

/// Reading back the little-endian bytes of `x` gives `x`.
pub proof fn lemma_le_u32_round_trip(x: u32)
    ensures
        le_u32(x).len() == 4,
        le_value(le_u32(x)) == x,
{
    let b = le_u32(x);
    assert(b[0] + b[1] * 0x100 + b[2] * 0x1_0000 + b[3] * 0x100_0000 == x) by (nonlinear_arith)
        requires
            b[0] == x % 0x100,
            b[1] == (x / 0x100) % 0x100,
            b[2] == (x / 0x1_0000) % 0x100,
            b[3] == x / 0x100_0000,
            x < 0x1_0000_0000,
    ;
}

/// A frame followed by anything reads back as its payload, the rest
/// following.
pub proof fn lemma_frame_round_trip(payload: Seq<u8>, rest: Seq<u8>)
    requires
        payload.len() <= u32::MAX,
    ensures
        first_frame(encode_frame(payload) + rest) == Some((payload, rest)),
{
    let bytes = encode_frame(payload) + rest;
    lemma_le_u32_round_trip(payload.len() as u32);
    assert(bytes.take(4) =~= le_u32(payload.len() as u32));
    assert(bytes.subrange(4, 4 + payload.len() as int) =~= payload);
    assert(bytes.skip(4 + payload.len() as int) =~= rest);
}

/// The little-endian bytes of `x`.
fn le_bytes(x: u32) -> (r: Vec<u8>)
    ensures
        r@ == le_u32(x),
{
    let r = vec![
        (x % 0x100) as u8,
        ((x / 0x100) % 0x100) as u8,
        ((x / 0x1_0000) % 0x100) as u8,
        (x / 0x100_0000) as u8,
    ];
    assert(r@ =~= le_u32(x));
    r
}

/// An outbound frame being written: the length prefix goes first, then the
/// payload in chunks of `PAYLOAD_CHUNK_SIZE` bytes, the last one trimmed.
pub struct OutboundFrame {
    full: Vec<Vec<u8>>,
    chunk: Vec<u8>,
    payload_len: u32,
}

impl OutboundFrame {
    /// The payload written so far.
    pub closed spec fn written(&self) -> Seq<u8> {
        flatten(self.full@.map_values(|c: Vec<u8>| c@)) + self.chunk@
    }

    /// The chunking is consistent: every flushed chunk is full, the open
    /// chunk is not, and the length counts every byte written.
    pub closed spec fn wf(&self) -> bool {
        &&& forall|i: int| 0 <= i < self.full@.len() ==> (#[trigger] self.full@[i])@.len()
            == PAYLOAD_CHUNK_SIZE
        &&& self.chunk@.len() < PAYLOAD_CHUNK_SIZE
        &&& self.payload_len == self.written().len()
    }

    /// A frame with an empty payload so far.
    pub fn new() -> (r: Self)
        ensures
            r.wf(),
            r.written() == Seq::<u8>::empty(),
    {
        let r = OutboundFrame { full: Vec::new(), chunk: Vec::new(), payload_len: 0 };
        assert(r.full@.map_values(|c: Vec<u8>| c@) =~= Seq::<Seq<u8>>::empty());
        assert(r.written() =~= Seq::<u8>::empty());
        r
    }

    /// Append `buf` to the payload. Fails, writing nothing, when the payload
    /// would exceed `u32::MAX` bytes.
    pub fn write(&mut self, buf: &[u8]) -> (r: Result<usize, FrameError>)
        requires
            old(self).wf(),
        ensures
            final(self).wf(),
            old(self).written().len() + buf@.len() <= u32::MAX ==> r == Ok::<usize, FrameError>(
                buf@.len() as usize,
            ) && final(self).written() == old(self).written() + buf@,
            old(self).written().len() + buf@.len() > u32::MAX ==> r == Err::<usize, FrameError>(
                FrameError::PayloadOverflow,
            ) && final(self).written() == old(self).written(),
    {
        if buf.len() > u32::MAX as usize {
            return Err(FrameError::PayloadOverflow);
        }
        let additional = buf.len() as u32;
        self.payload_len = match self.payload_len.checked_add(additional) {
            Some(n) => n,
            None => return Err(FrameError::PayloadOverflow),
        };
        let ghost before = old(self).written();
        let mut i: usize = 0;
        while i < buf.len()
            invariant
                0 <= i <= buf@.len(),
                forall|j: int| 0 <= j < self.full@.len() ==> (#[trigger] self.full@[j])@.len()
                    == PAYLOAD_CHUNK_SIZE,
                self.chunk@.len() < PAYLOAD_CHUNK_SIZE,
                self.written() == before + buf@.take(i as int),
                self.payload_len == before.len() + buf@.len(),
            decreases buf@.len() - i,
        {
            let ghost prev_full = self.full@.map_values(|c: Vec<u8>| c@);
            let ghost w_before = self.written();
            self.chunk.push(buf[i]);
            assert(buf@.take(i + 1) =~= buf@.take(i as int).push(buf@[i as int]));
            assert(self.written() =~= w_before.push(buf@[i as int]));
            if self.chunk.len() == PAYLOAD_CHUNK_SIZE {
                let ghost filled = self.chunk@;
                let mut full_chunk = Vec::new();
                std::mem::swap(&mut full_chunk, &mut self.chunk);
                self.full.push(full_chunk);
                proof {
                    let now = self.full@.map_values(|c: Vec<u8>| c@);
                    assert(now.drop_last() =~= prev_full);
                    assert(now.last() == filled);
                    assert(flatten(now) == flatten(prev_full) + filled);
                    assert(self.chunk@ =~= Seq::<u8>::empty());
                    assert(self.written() =~= flatten(prev_full) + filled);
                }
            }
            i += 1;
            assert(self.written() =~= before + buf@.take(i as int));
        }
        assert(buf@.take(i as int) =~= buf@);
        Ok(buf.len())
    }

    /// Finish the frame: its chunks in order, the length prefix first, then
    /// the full payload chunks, then the last partial chunk when it is not
    /// empty.
    pub fn finish(self) -> (r: Vec<Vec<u8>>)
        requires
            self.wf(),
        ensures
            flatten(r@.map_values(|c: Vec<u8>| c@)) == encode_frame(self.written()),
            r@.len() >= 1,
            r@[0]@ == le_u32(self.written().len() as u32),
            forall|i: int| 1 <= i < r@.len() ==> 0 < (#[trigger] r@[i])@.len() <= PAYLOAD_CHUNK_SIZE,
            forall|i: int| 1 <= i < r@.len() - 1 ==> (#[trigger] r@[i])@.len() == PAYLOAD_CHUNK_SIZE,
    {
        let ghost payload = self.written();
        let mut out: Vec<Vec<u8>> = Vec::new();
        out.push(le_bytes(self.payload_len));
        let OutboundFrame { full, chunk, payload_len } = self;
        let ghost fulls = full@;
        proof {
            let start = out@.map_values(|c: Vec<u8>| c@);
            assert(start.drop_last() =~= Seq::<Seq<u8>>::empty());
            assert(flatten(Seq::<Seq<u8>>::empty()) =~= Seq::<u8>::empty());
            assert(start.last() == le_u32(payload_len));
            assert(full@.take(0).map_values(|c: Vec<u8>| c@) =~= Seq::<Seq<u8>>::empty());
            assert(flatten(start) =~= le_u32(payload_len));
        }
        let mut i: usize = 0;
        while i < full.len()
            invariant
                fulls == full@,
                0 <= i <= full@.len(),
                out@.len() == i + 1,
                out@[0]@ == le_u32(payload_len),
                forall|j: int| 0 <= j < full@.len() ==> (#[trigger] full@[j])@.len()
                    == PAYLOAD_CHUNK_SIZE,
                forall|j: int| 1 <= j < out@.len() ==> (#[trigger] out@[j])@ == full@[j - 1]@,
                flatten(out@.map_values(|c: Vec<u8>| c@)) == le_u32(payload_len) + flatten(
                    full@.take(i as int).map_values(|c: Vec<u8>| c@),
                ),
            decreases full@.len() - i,
        {
            let ghost prev = out@.map_values(|c: Vec<u8>| c@);
            out.push(full[i].clone());
            proof {
                let now = out@.map_values(|c: Vec<u8>| c@);
                assert(now.drop_last() =~= prev);
                let fi = full@.take(i + 1).map_values(|c: Vec<u8>| c@);
                assert(fi.drop_last() =~= full@.take(i as int).map_values(|c: Vec<u8>| c@));
                assert(fi.last() == full@[i as int]@);
            }
            i += 1;
        }
        assert(full@.take(i as int) =~= full@);
        if chunk.len() > 0 {
            let ghost prev = out@.map_values(|c: Vec<u8>| c@);
            out.push(chunk);
            proof {
                let now = out@.map_values(|c: Vec<u8>| c@);
                assert(now.drop_last() =~= prev);
            }
        }
        assert(flatten(out@.map_values(|c: Vec<u8>| c@)) =~= encode_frame(payload));
        out
    }
}

/// Inbound bytes waiting to be cut into frames.
pub struct InboundFrames {
    buffer: Vec<u8>,
}

impl InboundFrames {
    /// The bytes received and not yet taken as frames.
    pub closed spec fn pending(&self) -> Seq<u8> {
        self.buffer@
    }

    /// Nothing received yet.
    pub fn new() -> (r: Self)
        ensures
            r.pending() == Seq::<u8>::empty(),
    {
        InboundFrames { buffer: Vec::new() }
    }

    /// Take in a chunk of the stream.
    pub fn push_chunk(&mut self, chunk: &[u8])
        ensures
            final(self).pending() == old(self).pending() + chunk@,
    {
        let mut i: usize = 0;
        while i < chunk.len()
            invariant
                0 <= i <= chunk@.len(),
                self.buffer@ == old(self).buffer@ + chunk@.take(i as int),
            decreases chunk@.len() - i,
        {
            self.buffer.push(chunk[i]);
            i += 1;
            assert(self.buffer@ =~= old(self).buffer@ + chunk@.take(i as int));
        }
        assert(chunk@.take(i as int) =~= chunk@);
    }

    /// The payload of the next complete frame, taken out of the pending
    /// bytes; `None`, with nothing taken, when no complete frame is pending.
    pub fn next_frame(&mut self) -> (r: Option<Vec<u8>>)
        ensures
            match first_frame(old(self).pending()) {
                Some((payload, rest)) => r matches Some(p) && p@ == payload && final(self).pending()
                    == rest,
                None => r is None && final(self).pending() == old(self).pending(),
            },
    {
        if self.buffer.len() < 4 {
            return None;
        }
        let n: u64 = self.buffer[0] as u64 + self.buffer[1] as u64 * 0x100 + self.buffer[2] as u64
            * 0x1_0000 + self.buffer[3] as u64 * 0x100_0000;
        assert(self.buffer@.take(4)[0] == self.buffer@[0]);
        assert(n == le_value(self.buffer@.take(4)));
        if (self.buffer.len() as u64) < 4 + n {
            return None;
        }
        let end = (4 + n) as usize;
        let mut payload: Vec<u8> = Vec::new();
        let mut i: usize = 4;
        while i < end
            invariant
                4 <= i <= end <= self.buffer@.len(),
                payload@ == self.buffer@.subrange(4, i as int),
            decreases end - i,
        {
            payload.push(self.buffer[i]);
            i += 1;
            assert(payload@ =~= self.buffer@.subrange(4, i as int));
        }
        let mut rest: Vec<u8> = Vec::new();
        let mut j: usize = end;
        while j < self.buffer.len()
            invariant
                end <= j <= self.buffer@.len(),
                rest@ == self.buffer@.subrange(end as int, j as int),
            decreases self.buffer@.len() - j,
        {
            rest.push(self.buffer[j]);
            j += 1;
            assert(rest@ =~= self.buffer@.subrange(end as int, j as int));
        }
        assert(rest@ =~= self.buffer@.skip(end as int));
        self.buffer = rest;
        Some(payload)
    }

    /// Take in the end of the stream: clean when no byte of a frame is left
    /// over, `UnexpectedEnd` when the stream stopped inside a frame.
    pub fn finish(&self) -> (r: Result<(), FrameError>)
        ensures
            r is Ok <==> self.pending().len() == 0,
            r is Err ==> r == Err::<(), FrameError>(FrameError::UnexpectedEnd),
    {
        if self.buffer.len() == 0 {
            Ok(())
        } else {
            Err(FrameError::UnexpectedEnd)
        }
    }
}

/// The smaller of `a` and `b`.
pub open spec fn min_nat(a: int, b: int) -> int {
    if a <= b {
        a
    } else {
        b
    }
}

/// Where a frame starts in `bytes` when a frame may start once at least
/// one byte past its length prefix and `bound` bytes of its payload (or the
/// whole payload, if shorter) are in: its length, the payload bytes already
/// in, and the bytes after them; `None` while the length prefix or those
/// bytes are missing. Even an empty frame waits for a byte after its prefix.
pub open spec fn frame_start(bytes: Seq<u8>, bound: nat) -> Option<(u32, Seq<u8>, Seq<u8>)> {
    if bytes.len() < 4 {
        None
    } else {
        let n = le_value(bytes.take(4));
        let avail = bytes.len() - 4;
        if avail == 0 || avail < min_nat(bound as int, n) {
            None
        } else {
            let taken = min_nat(avail, n);
            Some((n as u32, bytes.subrange(4, 4 + taken), bytes.skip(4 + taken)))
        }
    }
}

/// The bytes `from..to` of `buf`.
fn copy_range(buf: &Vec<u8>, from: usize, to: usize) -> (r: Vec<u8>)
    requires
        from <= to <= buf@.len(),
    ensures
        r@ == buf@.subrange(from as int, to as int),
{
    let mut r: Vec<u8> = Vec::new();
    let mut i: usize = from;
    while i < to
        invariant
            from <= i <= to <= buf@.len(),
            r@ == buf@.subrange(from as int, i as int),
        decreases to - i,
    {
        r.push(buf[i]);
        i += 1;
        assert(r@ =~= buf@.subrange(from as int, i as int));
    }
    r
}

/// `true` when a started frame of length `n`, `got` bytes of which were
/// handed out, can finish with `pending` bytes in: at once when all of it
/// was handed out; otherwise only once a byte past its end is in too.
pub open spec fn frame_finishes(pending: nat, n: nat, got: nat) -> bool {
    got == n || pending > n - got
}

/// Inbound bytes cut into frames that start before their whole payload is
/// in: a frame starts once its length is known and `bound` bytes of its
/// payload (or all of it, if shorter) have arrived, handing out what has
/// arrived; it finishes once the rest of its payload is in. The bytes after
/// a frame are kept for the next one.
pub struct StreamedFrames {
    buffer: Vec<u8>,
    bound: usize,
    open: Option<(u32, usize)>,
}

impl StreamedFrames {
    /// The bytes received and not yet handed out.
    pub closed spec fn pending(&self) -> Seq<u8> {
        self.buffer@
    }

    /// How many payload bytes a frame needs to start.
    pub closed spec fn bound(&self) -> nat {
        self.bound as nat
    }

    /// The frame started and not finished, if any: its length and how many
    /// of its payload bytes were handed out.
    pub closed spec fn open(&self) -> Option<(u32, nat)> {
        match self.open {
            Some((n, got)) => Some((n, got as nat)),
            None => None,
        }
    }

    /// A started frame has not been handed more bytes than its length.
    pub closed spec fn wf(&self) -> bool {
        self.open matches Some((n, got)) ==> got <= n
    }

    /// Nothing received, no frame started; frames start once `bound` bytes
    /// of their payload are in.
    pub fn new(bound: usize) -> (r: Self)
        ensures
            r.wf(),
            r.pending() == Seq::<u8>::empty(),
            r.bound() == bound,
            r.open() is None,
    {
        StreamedFrames { buffer: Vec::new(), bound, open: None }
    }

    /// Take in a chunk of the stream.
    pub fn push_chunk(&mut self, chunk: &[u8])
        requires
            old(self).wf(),
        ensures
            final(self).wf(),
            final(self).pending() == old(self).pending() + chunk@,
            final(self).bound() == old(self).bound(),
            final(self).open() == old(self).open(),
    {
        let mut i: usize = 0;
        while i < chunk.len()
            invariant
                0 <= i <= chunk@.len(),
                self.buffer@ == old(self).buffer@ + chunk@.take(i as int),
                self.bound == old(self).bound,
                self.open == old(self).open,
            decreases chunk@.len() - i,
        {
            self.buffer.push(chunk[i]);
            i += 1;
            assert(self.buffer@ =~= old(self).buffer@ + chunk@.take(i as int));
        }
        assert(chunk@.take(i as int) =~= chunk@);
    }

    /// Start the next frame when no frame is open and enough of it is in (see
    /// `frame_start`):
    /// its length and the payload bytes in so far, which are taken out of
    /// the pending bytes. `None`, with nothing taken, while a frame is open
    /// or the next frame cannot start yet.
    pub fn start_frame(&mut self) -> (r: Option<(u32, Vec<u8>)>)
        requires
            old(self).wf(),
        ensures
            final(self).wf(),
            final(self).bound() == old(self).bound(),
            old(self).open() is Some ==> r is None && final(self).pending() == old(self).pending()
                && final(self).open() == old(self).open(),
            old(self).open() is None ==> match frame_start(old(self).pending(), old(self).bound()) {
                Some((n, head, rest)) => {
                    &&& r matches Some((m, h)) && m == n && h@ == head
                    &&& final(self).pending() == rest
                    &&& final(self).open() == Some((n, head.len()))
                },
                None => r is None && final(self).pending() == old(self).pending()
                    && final(self).open() is None,
            },
    {
        if self.open.is_some() || self.buffer.len() < 4 {
            return None;
        }
        let n: u64 = self.buffer[0] as u64 + self.buffer[1] as u64 * 0x100 + self.buffer[2] as u64
            * 0x1_0000 + self.buffer[3] as u64 * 0x100_0000;
        assert(self.buffer@.take(4)[0] == self.buffer@[0]);
        assert(n == le_value(self.buffer@.take(4)));
        let avail = (self.buffer.len() - 4) as u64;
        let need = if (self.bound as u64) < n {
            self.bound as u64
        } else {
            n
        };
        if avail == 0 || avail < need {
            return None;
        }
        let taken = if avail < n {
            avail
        } else {
            n
        };
        let end = 4 + taken as usize;
        let head = copy_range(&self.buffer, 4, end);
        let rest = copy_range(&self.buffer, end, self.buffer.len());
        assert(rest@ =~= self.buffer@.skip(end as int));
        self.buffer = rest;
        self.open = Some((n as u32, taken as usize));
        Some((n as u32, head))
    }

    /// Finish the open frame once the rest of its payload is in, together
    /// with at least one byte after it when any of the payload was missing:
    /// the rest, taken out of the pending bytes. `None`, with nothing taken,
    /// when no frame is open or it cannot finish yet; at the end of the
    /// stream such a frame is cut short.
    pub fn finish_frame(&mut self) -> (r: Option<Vec<u8>>)
        requires
            old(self).wf(),
        ensures
            final(self).wf(),
            final(self).bound() == old(self).bound(),
            match old(self).open() {
                None => r is None && final(self).pending() == old(self).pending()
                    && final(self).open() is None,
                Some((n, got)) => {
                    let need = n - got;
                    if !frame_finishes(old(self).pending().len(), n as nat, got) {
                        &&& r is None
                        &&& final(self).pending() == old(self).pending()
                        &&& final(self).open() == old(self).open()
                    } else {
                        &&& r matches Some(tail) && tail@ == old(self).pending().take(need)
                        &&& final(self).pending() == old(self).pending().skip(need)
                        &&& final(self).open() is None
                    }
                },
            },
    {
        let (n, got) = match self.open {
            Some(o) => o,
            None => return None,
        };
        let need = n as usize - got;
        if need > 0 && self.buffer.len() <= need {
            return None;
        }
        let tail = copy_range(&self.buffer, 0, need);
        let rest = copy_range(&self.buffer, need, self.buffer.len());
        assert(tail@ =~= self.buffer@.take(need as int));
        assert(rest@ =~= self.buffer@.skip(need as int));
        self.buffer = rest;
        self.open = None;
        Some(tail)
    }

    /// Take in the end of the stream: clean when no frame is open and no
    /// byte is left over, `UnexpectedEnd` otherwise.
    pub fn finish(&self) -> (r: Result<(), FrameError>)
        ensures
            r is Ok <==> (self.pending().len() == 0 && self.open() is None),
            r is Err ==> r == Err::<(), FrameError>(FrameError::UnexpectedEnd),
    {
        if self.buffer.len() == 0 && self.open.is_none() {
            Ok(())
        } else {
            Err(FrameError::UnexpectedEnd)
        }
    }
}

/// However much of a frame has arrived when it starts, the payload bytes
/// handed out when it starts, followed by those handed out when it
/// finishes, are its payload, and what is left is what followed the frame:
/// for a stream holding a frame and then `rest`, and any prefix of it long
/// enough for the frame to start (its length, a byte after it, and `bound`
/// payload bytes, or the whole payload if shorter), the frame starts with
/// its length, and the bytes still missing are exactly the first bytes of
/// what arrives next. Once the whole stream is in, the frame can finish
/// exactly when all of it came at the start or something follows it.
pub proof fn lemma_streamed_frame_round_trip(payload: Seq<u8>, rest: Seq<u8>, bound: nat, k: int)
    requires
        payload.len() <= u32::MAX,
        4 < k,
        4 + min_nat(bound as int, payload.len() as int) <= k <= 4 + payload.len() + rest.len(),
    ensures
        ({
            let bytes = encode_frame(payload) + rest;
            match frame_start(bytes.take(k), bound) {
                Some((n, head, tail)) => {
                    let later = tail + bytes.skip(k);
                    let need = n - head.len();
                    &&& n == payload.len()
                    &&& head.len() <= n
                    &&& need <= later.len()
                    &&& head + later.take(need) == payload
                    &&& later.skip(need) == rest
                    &&& frame_finishes(later.len(), n as nat, head.len()) <==> (head.len() == n
                        || rest.len() > 0)
                },
                None => false,
            }
        }),
{
    let bytes = encode_frame(payload) + rest;
    let n = payload.len();
    lemma_le_u32_round_trip(n as u32);
    let pre = bytes.take(k);
    assert(pre.take(4) =~= le_u32(n as u32));
    let avail = k - 4;
    let taken = min_nat(avail, n as int);
    let head = pre.subrange(4, 4 + taken);
    let tail = pre.skip(4 + taken);
    let later = tail + bytes.skip(k);
    assert(head =~= payload.take(taken));
    assert(later =~= bytes.skip(4 + taken));
    assert(head + later.take(n - taken) =~= payload);
    assert(later.skip(n - taken) =~= rest);
}

/// The chunks queued for sending, and the frames being built. Each frame
/// is built under its own identifier; its chunks join the queue, after
/// those already queued, only when it is sealed, so frames built side by
/// side are queued whole, in the order they are sealed.
pub struct OutboundQueue<B> {
    queued: VecDeque<B>,
    builders: Vec<Option<VecDeque<B>>>,
}

/// The chunks held in a builder slot.
pub open spec fn slot_view<B>(slot: Option<VecDeque<B>>) -> Option<Seq<B>> {
    match slot {
        Some(v) => Some(v@),
        None => None,
    }
}

impl<B> OutboundQueue<B> {
    /// The chunks waiting to be sent, oldest first.
    pub closed spec fn pending(&self) -> Seq<B> {
        self.queued@
    }

    /// The chunks of the frame being built under `id`, if one is.
    pub closed spec fn building(&self, id: int) -> Option<Seq<B>> {
        if 0 <= id < self.builders@.len() {
            slot_view(self.builders@[id])
        } else {
            None
        }
    }

    /// How many identifiers have ever been in use at once: every identifier
    /// at or above it is free.
    pub closed spec fn slot_count(&self) -> nat {
        self.builders@.len()
    }

    /// Nothing queued, no frame being built.
    pub fn new() -> (r: Self)
        ensures
            r.pending() == Seq::<B>::empty(),
            r.slot_count() == 0,
            forall|id: int| r.building(id) is None,
    {
        OutboundQueue { queued: VecDeque::new(), builders: Vec::new() }
    }

    /// Start building a frame under a free identifier, the smallest one.
    pub fn begin_frame(&mut self) -> (id: usize)
        ensures
            old(self).building(id as int) is None,
            forall|j: int| 0 <= j < id ==> old(self).building(j) is Some,
            id <= old(self).slot_count(),
            final(self).slot_count() == if id == old(self).slot_count() {
                old(self).slot_count() + 1
            } else {
                old(self).slot_count()
            },
            final(self).building(id as int) == Some(Seq::<B>::empty()),
            forall|j: int| j != id ==> final(self).building(j) == old(self).building(j),
            final(self).pending() == old(self).pending(),
    {
        let mut i: usize = 0;
        while i < self.builders.len()
            invariant
                0 <= i <= self.builders@.len(),
                self.builders@ == old(self).builders@,
                self.queued@ == old(self).queued@,
                forall|j: int| 0 <= j < i ==> self.builders@[j] is Some,
            decreases self.builders@.len() - i,
        {
            if self.builders[i].is_none() {
                let _ = self.builders.remove(i);
                self.builders.insert(i, Some(VecDeque::new()));
                assert forall|j: int| j != i implies self.building(j) == old(self).building(j) by {
                    if 0 <= j < self.builders@.len() {
                        assert(self.builders@[j] == old(self).builders@[j]);
                    }
                }
                return i;
            }
            i += 1;
        }
        self.builders.push(Some(VecDeque::new()));
        assert forall|j: int| j != i implies self.building(j) == old(self).building(j) by {
            if 0 <= j < old(self).builders@.len() {
                assert(self.builders@[j] == old(self).builders@[j]);
            }
        }
        i
    }

    /// Take the chunks of the frame being built under `id` out of its slot,
    /// freeing the slot.
    fn take_builder(&mut self, id: usize) -> (r: VecDeque<B>)
        requires
            old(self).building(id as int) is Some,
        ensures
            r@ == old(self).building(id as int)->0,
            final(self).building(id as int) is None,
            forall|j: int| j != id ==> final(self).building(j) == old(self).building(j),
            final(self).slot_count() == old(self).slot_count(),
            final(self).pending() == old(self).pending(),
    {
        let slot = self.builders.remove(id);
        self.builders.insert(id, None);
        assert forall|j: int| j != id implies self.building(j) == old(self).building(j) by {
            if 0 <= j < self.builders@.len() {
                assert(self.builders@[j] == old(self).builders@[j]);
            }
        }
        match slot {
            Some(v) => v,
            None => VecDeque::new(),
        }
    }

    /// Add a chunk to the frame being built under `id`.
    pub fn append(&mut self, id: usize, chunk: B)
        requires
            old(self).building(id as int) is Some,
        ensures
            final(self).pending() == old(self).pending(),
            final(self).slot_count() == old(self).slot_count(),
            final(self).building(id as int) == Some(old(self).building(id as int)->0.push(chunk)),
            forall|j: int| j != id ==> final(self).building(j) == old(self).building(j),
    {
        let mut frame = self.take_builder(id);
        frame.push_back(chunk);
        let ghost mid = self.builders@;
        let _ = self.builders.remove(id);
        self.builders.insert(id, Some(frame));
        assert forall|j: int| j != id implies self.building(j) == old(self).building(j) by {
            if 0 <= j < self.builders@.len() {
                assert(self.builders@[j] == mid[j]);
            }
        }
    }

    /// Queue the chunks of the frame being built under `id` after those
    /// already queued, freeing `id`.
    pub fn seal(&mut self, id: usize)
        requires
            old(self).building(id as int) is Some,
        ensures
            final(self).pending() == old(self).pending() + old(self).building(id as int)->0,
            final(self).slot_count() == old(self).slot_count(),
            final(self).building(id as int) is None,
            forall|j: int| j != id ==> final(self).building(j) == old(self).building(j),
    {
        let mut frame = self.take_builder(id);
        self.queued.append(&mut frame);
    }

    /// Drop the frame being built under `id`, freeing `id`.
    pub fn discard(&mut self, id: usize)
        requires
            old(self).building(id as int) is Some,
        ensures
            final(self).pending() == old(self).pending(),
            final(self).slot_count() == old(self).slot_count(),
            final(self).building(id as int) is None,
            forall|j: int| j != id ==> final(self).building(j) == old(self).building(j),
    {
        let _ = self.take_builder(id);
    }

    /// Take the next chunk to send, if any.
    pub fn poll(&mut self) -> (r: Option<B>)
        ensures
            final(self).slot_count() == old(self).slot_count(),
            forall|j: int| final(self).building(j) == old(self).building(j),
            old(self).pending().len() == 0 ==> (r is None && final(self).pending()
                == old(self).pending()),
            old(self).pending().len() > 0 ==> (r == Some(old(self).pending()[0])
                && final(self).pending() == old(self).pending().drop_first()),
    {
        let r = self.queued.pop_front();
        proof {
            if old(self).queued@.len() > 0 {
                assert(self.queued@ =~= old(self).queued@.drop_first());
            }
        }
        r
    }
}

} // verus!
