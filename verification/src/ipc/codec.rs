//! Length-prefixed framing over a byte stream (the sidecar's stdio pipes).
//!
//! Frame layout: `[u32 length little-endian][UTF-8 JSON body]`. A frame body must
//! not exceed [`MAX_FRAME_LEN`]; an oversized length prefix is rejected before any
//! body byte is requested, so a corrupt length can never trigger a huge allocation.
//!
//! Writing is [`encode_frame`]. Reading is the [`FrameReader`] state machine: the
//! caller performs each `read` the reader asks for and feeds back what it got,
//! until the reader yields a frame body, a clean end of stream, or an error.

use vstd::prelude::*;
use vstd::bytes::{
    lemma_auto_spec_u32_to_from_le_bytes, spec_u32_from_le_bytes, spec_u32_to_le_bytes,
    u32_from_le_bytes, u32_to_le_bytes,
};

verus! {

/// Upper bound on a single frame's body (16 MiB).
pub const MAX_FRAME_LEN: usize = 16 * 1024 * 1024;

#[verifier::external_type_specification]
#[verifier::external_body]
pub struct ExIoError(std::io::Error);

#[verifier::external_type_specification]
#[verifier::external_body]
pub struct ExJsonError(serde_json::Error);

/// Why a frame could not be written or read.
#[derive(Debug)]
pub enum CodecError {
    Io(std::io::Error),
    Json(serde_json::Error),
    FrameTooLarge(usize),
}

/// The bytes of one frame carrying `body`.
pub open spec fn frame_bytes(body: Seq<u8>) -> Seq<u8> {
    spec_u32_to_le_bytes(body.len() as u32) + body
}

/// The body length that a received stream prefix declares (its first four bytes).
pub open spec fn declared_len(received: Seq<u8>) -> nat {
    spec_u32_from_le_bytes(received.take(4)) as nat
}

/// The length prefix is complete and declares more than the maximum body size.
pub open spec fn frame_too_large(received: Seq<u8>) -> bool {
    received.len() >= 4 && declared_len(received) > MAX_FRAME_LEN
}

/// `received` is exactly one whole, admissible frame.
pub open spec fn frame_complete(received: Seq<u8>) -> bool {
    &&& received.len() >= 4
    &&& !frame_too_large(received)
    &&& received.len() == 4 + declared_len(received)
}

/// How many more bytes the reader needs before it can decide about `received`.
pub open spec fn bytes_needed(received: Seq<u8>) -> int {
    if received.len() < 4 {
        4 - received.len()
    } else {
        4 + declared_len(received) - received.len()
    }
}

/// What `encode_frame` writes, a `FrameReader` reads back: fed the bytes of a
/// frame in any chunks it asks for, the reader finds no proper prefix oversized or
/// complete, never asks for a byte past the frame's end (so a following frame is
/// left untouched), and on the last byte yields exactly the body.
pub proof fn frame_round_trip(body: Seq<u8>)
    requires
        body.len() <= MAX_FRAME_LEN,
    ensures
        frame_complete(frame_bytes(body)),
        frame_bytes(body).skip(4) == body,
        forall|k: int|
            0 <= k < frame_bytes(body).len() ==> {
                let p = #[trigger] frame_bytes(body).take(k);
                &&& !frame_too_large(p)
                &&& !frame_complete(p)
                &&& 0 < bytes_needed(p) <= frame_bytes(body).len() - k
            },
{
    lemma_auto_spec_u32_to_from_le_bytes();
    let f = frame_bytes(body);
    let prefix = spec_u32_to_le_bytes(body.len() as u32);
    assert(prefix.len() == 4);
    assert(f.take(4) =~= prefix);
    assert(f.skip(4) =~= body);
    assert(declared_len(f) == body.len());
    assert forall|k: int| 0 <= k < f.len() implies {
        let p = #[trigger] f.take(k);
        &&& !frame_too_large(p)
        &&& !frame_complete(p)
        &&& 0 < bytes_needed(p) <= f.len() - k
    } by {
        let p = f.take(k);
        if k >= 4 {
            assert(p.take(4) =~= prefix);
            assert(declared_len(p) == body.len());
        }
    }
}

/// Frame `body`: its length as a little-endian u32, then the body itself.
pub fn encode_frame(body: &[u8]) -> (r: Result<Vec<u8>, CodecError>)
    ensures
        body@.len() <= MAX_FRAME_LEN ==> (r matches Ok(v) && v@ == frame_bytes(body@)),
        body@.len() > MAX_FRAME_LEN ==> (r matches Err(CodecError::FrameTooLarge(n))
            && n == body@.len()),
{
    if body.len() > MAX_FRAME_LEN {
        return Err(CodecError::FrameTooLarge(body.len()));
    }
    let len = body.len() as u32;
    let mut out = u32_to_le_bytes(len);
    let mut rest = vstd::slice::slice_to_vec(body);
    out.append(&mut rest);
    Ok(out)
}

/// How a buffer fill ended.
#[derive(Debug, Clone, Copy, PartialEq, Eq, Structural)]
pub enum ReadEnd {
    /// The buffer is full.
    Filled,
    /// The stream ended before the first byte.
    Eof,
}

/// The state of a buffer fill after one `read` returned `got` bytes.
#[derive(Debug, Clone, Copy, PartialEq, Eq, Structural)]
pub enum Fill {
    /// Still short; this many bytes are in.
    Partial(usize),
    /// The fill is over.
    Ended(ReadEnd),
    /// The stream ended after some bytes but before the buffer was full.
    UnexpectedEof,
}

/// One step of filling a `target`-byte buffer of which `filled` bytes are in.
/// A full buffer (an empty one included) is `Filled` without any read; otherwise
/// `got` is what the next `read` returned (0 meaning end of stream). Like
/// `read_exact`, except that an end of stream before the first byte is reported
/// as `Eof` instead of an error: that is the one place EOF is expected.
pub fn read_exact_or_eof(filled: usize, target: usize, got: usize) -> (r: Fill)
    requires
        filled <= target,
        got <= target - filled,
    ensures
        filled == target ==> r == Fill::Ended(ReadEnd::Filled),
        filled < target && got == 0 && filled == 0 ==> r == Fill::Ended(ReadEnd::Eof),
        filled < target && got == 0 && filled > 0 ==> r == Fill::UnexpectedEof,
        filled < target && got > 0 && filled + got == target ==> r == Fill::Ended(
            ReadEnd::Filled,
        ),
        filled < target && got > 0 && filled + got < target ==> r == Fill::Partial(
            (filled + got) as usize,
        ),
{
    if filled == target {
        Fill::Ended(ReadEnd::Filled)
    } else if got == 0 {
        if filled == 0 {
            Fill::Ended(ReadEnd::Eof)
        } else {
            Fill::UnexpectedEof
        }
    } else if filled + got == target {
        Fill::Ended(ReadEnd::Filled)
    } else {
        Fill::Partial(filled + got)
    }
}

/// What one `read` call on the stream reported.
#[derive(Debug)]
pub enum ReadEvent {
    /// The bytes it read; none at all means the stream ended.
    Bytes(Vec<u8>),
    /// It was interrupted before reading anything (`ErrorKind::Interrupted`).
    Interrupted,
    /// It failed for any other reason.
    Failed(std::io::Error),
}

/// Where a frame was cut off by the end of the stream.
#[derive(Debug, Clone, Copy, PartialEq, Eq, Structural)]
pub enum Truncation {
    /// Inside the length prefix.
    LengthPrefix,
    /// Inside the body, after a whole length prefix.
    Body,
}

/// Where reading a frame stands after some events: the meaning of a `ReadStep`.
pub enum FrameOutcome {
    /// Still reading; these bytes are in.
    Pending(Seq<u8>),
    /// A whole frame arrived with this body.
    Frame(Seq<u8>),
    /// The stream ended cleanly at a frame boundary.
    Closed,
    /// The length prefix declares this many bytes, more than the maximum.
    TooLarge(nat),
    /// The stream ended in the middle of the frame.
    Truncated(Truncation),
    /// A read failed with this error.
    Failed(std::io::Error),
}

/// The outcome of taking in bytes `b` of one `read` after `received`.
pub open spec fn step_bytes(received: Seq<u8>, b: Seq<u8>) -> FrameOutcome {
    let s = received + b;
    if b.len() == 0 {
        if received.len() == 0 {
            FrameOutcome::Closed
        } else if received.len() < 4 {
            FrameOutcome::Truncated(Truncation::LengthPrefix)
        } else {
            FrameOutcome::Truncated(Truncation::Body)
        }
    } else if s.len() < 4 {
        FrameOutcome::Pending(s)
    } else if frame_too_large(s) {
        FrameOutcome::TooLarge(declared_len(s))
    } else if frame_complete(s) {
        FrameOutcome::Frame(s.skip(4))
    } else {
        FrameOutcome::Pending(s)
    }
}

/// The outcome of taking in one read `event` after `received`.
pub open spec fn step(received: Seq<u8>, event: ReadEvent) -> FrameOutcome {
    match event {
        ReadEvent::Bytes(b) => step_bytes(received, b@),
        ReadEvent::Interrupted => FrameOutcome::Pending(received),
        ReadEvent::Failed(e) => FrameOutcome::Failed(e),
    }
}

/// The outcome of taking in `events` one after another, starting after
/// `received` and stopping at the first outcome that is not `Pending`.
pub open spec fn run(received: Seq<u8>, events: Seq<ReadEvent>) -> FrameOutcome
    decreases events.len(),
{
    if events.len() == 0 {
        FrameOutcome::Pending(received)
    } else {
        match step(received, events[0]) {
            FrameOutcome::Pending(next) => run(next, events.skip(1)),
            other => other,
        }
    }
}

/// `events` with every `Interrupted` left out.
pub open spec fn without_interrupts(events: Seq<ReadEvent>) -> Seq<ReadEvent>
    decreases events.len(),
{
    if events.len() == 0 {
        events
    } else if events[0] is Interrupted {
        without_interrupts(events.skip(1))
    } else {
        seq![events[0]] + without_interrupts(events.skip(1))
    }
}

/// Interrupted reads are retried and never reported: reading through any
/// sequence of read events ends as it does with the interruptions left out.
pub proof fn interrupted_reads_are_retried(received: Seq<u8>, events: Seq<ReadEvent>)
    ensures
        run(received, events) == run(received, without_interrupts(events)),
    decreases events.len(),
{
    if events.len() > 0 {
        let rest = without_interrupts(events.skip(1));
        if events[0] is Interrupted {
            interrupted_reads_are_retried(received, events.skip(1));
        } else {
            let w = seq![events[0]] + rest;
            assert(w[0] == events[0]);
            assert(w.skip(1) =~= rest);
            match step(received, events[0]) {
                FrameOutcome::Pending(next) => {
                    interrupted_reads_are_retried(next, events.skip(1));
                },
                _ => {},
            }
        }
    }
}

/// A frame still being read: its length prefix is incomplete, or it is complete,
/// admissible, and declares more bytes than have arrived.
pub open spec fn partial_frame(received: Seq<u8>) -> bool {
    received.len() < 4 || (!frame_too_large(received) && received.len() < 4
        + declared_len(received))
}

/// A read that brings fewer bytes than the reader still needs keeps every one of
/// them and decides nothing: the frame is neither yielded nor rejected, and the
/// reader then holds exactly what it held plus the bytes read.
pub proof fn short_reads_keep_every_byte(received: Seq<u8>, v: Vec<u8>)
    requires
        partial_frame(received),
        0 < v@.len() < bytes_needed(received),
    ensures
        step(received, ReadEvent::Bytes(v)) == FrameOutcome::Pending(received + v@),
{
    let s = received + v@;
    if received.len() >= 4 {
        assert(s.take(4) =~= received.take(4));
    }
}

/// Once the length prefix is in, the read that brings the last missing byte
/// yields the frame, and its body is every byte that came after the prefix, in
/// the order read, exactly as many as the prefix declared.
pub proof fn completing_read_yields_the_body(received: Seq<u8>, v: Vec<u8>)
    requires
        partial_frame(received),
        received.len() >= 4,
        v@.len() == bytes_needed(received),
    ensures
        step(received, ReadEvent::Bytes(v)) == FrameOutcome::Frame(received.skip(4) + v@),
        (received.skip(4) + v@).len() == declared_len(received),
{
    let s = received + v@;
    assert(s.take(4) =~= received.take(4));
    assert(s.skip(4) =~= received.skip(4) + v@);
}

/// The read that completes the length prefix decides on the declared length `n`:
/// more than the maximum is rejected before any body byte is asked for, zero is
/// an empty frame at once, and anything else waits for the body with the prefix kept.
pub proof fn length_prefix_decides(received: Seq<u8>, v: Vec<u8>)
    requires
        received.len() < 4,
        v@.len() == 4 - received.len(),
    ensures
        ({
            let n = spec_u32_from_le_bytes(received + v@);
            &&& n > MAX_FRAME_LEN ==> step(received, ReadEvent::Bytes(v)) == FrameOutcome::TooLarge(
                n as nat,
            )
            &&& n == 0 ==> step(received, ReadEvent::Bytes(v)) == FrameOutcome::Frame(
                Seq::<u8>::empty(),
            )
            &&& 0 < n <= MAX_FRAME_LEN ==> step(received, ReadEvent::Bytes(v))
                == FrameOutcome::Pending(received + v@)
        }),
{
    let s = received + v@;
    assert(s.take(4) =~= s);
    assert(s.skip(4) =~= Seq::<u8>::empty());
}

/// The bytes of a written frame read back the same however the stream splits
/// them: any read of the next `j - k` bytes after the first `k`, within what the
/// reader asks for, leaves the reader holding the first `j` bytes, and the read
/// that ends at the frame's last byte yields exactly the written body.
pub proof fn frame_reads_back_in_any_chunks(body: Seq<u8>, k: int, j: int, v: Vec<u8>)
    requires
        body.len() <= MAX_FRAME_LEN,
        0 <= k < j <= frame_bytes(body).len(),
        j - k <= bytes_needed(frame_bytes(body).take(k)),
        v@ == frame_bytes(body).subrange(k, j),
    ensures
        j < frame_bytes(body).len() ==> step(frame_bytes(body).take(k), ReadEvent::Bytes(v))
            == FrameOutcome::Pending(frame_bytes(body).take(j)),
        j == frame_bytes(body).len() ==> step(frame_bytes(body).take(k), ReadEvent::Bytes(v))
            == FrameOutcome::Frame(body),
{
    let f = frame_bytes(body);
    frame_round_trip(body);
    assert(f.take(k) + v@ =~= f.take(j));
    if j < f.len() {
        let q = f.take(j);
        assert(!frame_too_large(q) && !frame_complete(q));
    } else {
        assert(f.take(j) =~= f);
    }
}

/// An end of stream is a clean close only at a frame boundary, before any byte
/// of a frame: inside the length prefix or anywhere after it, however many body
/// bytes are in, the frame is reported truncated.
pub proof fn end_of_stream_closes_only_at_a_boundary(received: Seq<u8>, v: Vec<u8>)
    requires
        v@.len() == 0,
    ensures
        received.len() == 0 ==> step(received, ReadEvent::Bytes(v)) == FrameOutcome::Closed,
        0 < received.len() < 4 ==> step(received, ReadEvent::Bytes(v)) == FrameOutcome::Truncated(
            Truncation::LengthPrefix,
        ),
        received.len() >= 4 ==> step(received, ReadEvent::Bytes(v)) == FrameOutcome::Truncated(
            Truncation::Body,
        ),
{
}

/// A failed read is reported with its own error wherever the frame stands; only
/// an interrupted read leaves the reader as it was, to be retried.
pub proof fn failed_reads_are_reported(received: Seq<u8>, e: std::io::Error)
    ensures
        step(received, ReadEvent::Failed(e)) == FrameOutcome::Failed(e),
        step(received, ReadEvent::Interrupted) == FrameOutcome::Pending(received),
{
}

/// Reading one frame from the in-memory stream `rest` after `received`, where
/// every read returns as many of the stream's next bytes as were asked for (all
/// that are left if fewer). The result is the outcome and the unread stream.
pub open spec fn read_stream(received: Seq<u8>, rest: Seq<u8>) -> (FrameOutcome, Seq<u8>)
    decreases rest.len(),
{
    let want = bytes_needed(received);
    let n = if want < 0 { 0 } else if want < rest.len() { want } else { rest.len() as int };
    let chunk = rest.take(n);
    if n == 0 {
        (step_bytes(received, chunk), rest)
    } else {
        match step_bytes(received, chunk) {
            FrameOutcome::Pending(next) => read_stream(next, rest.skip(n)),
            other => (other, rest.skip(n)),
        }
    }
}

/// The bytes of frames carrying `bodies`, one after another.
pub open spec fn frames_bytes(bodies: Seq<Seq<u8>>) -> Seq<u8>
    decreases bodies.len(),
{
    if bodies.len() == 0 {
        Seq::empty()
    } else {
        frame_bytes(bodies[0]) + frames_bytes(bodies.skip(1))
    }
}

/// Reading from the middle of a frame: the rest of the frame yields its body,
/// and the stream after the frame is left unread.
proof fn lemma_read_stream_frame(body: Seq<u8>, k: int, after: Seq<u8>)
    requires
        body.len() <= MAX_FRAME_LEN,
        0 <= k < frame_bytes(body).len(),
    ensures
        read_stream(frame_bytes(body).take(k), frame_bytes(body).skip(k) + after) == (
            FrameOutcome::Frame(body),
            after,
        ),
    decreases frame_bytes(body).len() - k,
{
    let f = frame_bytes(body);
    frame_round_trip(body);
    let p = f.take(k);
    let rest = f.skip(k) + after;
    assert(f.take(k) == p);
    let n = bytes_needed(p);
    assert(0 < n <= f.len() - k);
    let chunk = rest.take(n);
    assert(chunk =~= f.subrange(k, k + n));
    assert(p + chunk =~= f.take(k + n));
    assert(rest.skip(n) =~= f.skip(k + n) + after);
    if k + n < f.len() {
        let q = f.take(k + n);
        assert(!frame_too_large(q) && !frame_complete(q));
        lemma_read_stream_frame(body, k + n, after);
    } else {
        assert(f.take(k + n) =~= f);
        assert(f.skip(k + n) + after =~= after);
    }
}

/// Frames written one after another read back in the order written, each with
/// exactly its body and leaving the frames after it unread; once all are read,
/// the next read finds a clean end of stream.
pub proof fn frames_read_back_in_order(bodies: Seq<Seq<u8>>, i: int)
    requires
        forall|j: int| 0 <= j < bodies.len() ==> (#[trigger] bodies[j]).len() <= MAX_FRAME_LEN,
        0 <= i <= bodies.len(),
    ensures
        i < bodies.len() ==> read_stream(Seq::empty(), frames_bytes(bodies.skip(i))) == (
            FrameOutcome::Frame(bodies[i]),
            frames_bytes(bodies.skip(i + 1)),
        ),
        i == bodies.len() ==> read_stream(Seq::empty(), frames_bytes(bodies.skip(i))) == (
            FrameOutcome::Closed,
            Seq::<u8>::empty(),
        ),
{
    lemma_auto_spec_u32_to_from_le_bytes();
    let tail = bodies.skip(i);
    if i < bodies.len() {
        assert(tail[0] == bodies[i]);
        assert(tail.skip(1) =~= bodies.skip(i + 1));
        assert(frames_bytes(tail) == frame_bytes(bodies[i]) + frames_bytes(bodies.skip(i + 1)));
        let f = frame_bytes(bodies[i]);
        assert(f.take(0) =~= Seq::<u8>::empty());
        assert(f.skip(0) =~= f);
        lemma_read_stream_frame(bodies[i], 0, frames_bytes(bodies.skip(i + 1)));
    } else {
        assert(tail.len() == 0);
        assert(frames_bytes(tail) =~= Seq::<u8>::empty());
        assert(Seq::<u8>::empty().take(0) =~= Seq::<u8>::empty());
        assert(Seq::<u8>::empty() + Seq::<u8>::empty() =~= Seq::<u8>::empty());
    }
}

/// Reads one frame: the length prefix, then exactly the body it declares.
#[derive(Debug)]
pub struct FrameReader {
    header: Vec<u8>,
    body: Vec<u8>,
    body_len: usize,
}

/// What the reader does after taking in one event.
#[derive(Debug)]
pub enum ReadStep {
    /// It needs more bytes: ask `wanted()` of the stream again.
    More(FrameReader),
    /// A whole frame arrived; this is its body.
    Frame(Vec<u8>),
    /// The stream ended cleanly at a frame boundary.
    Closed,
    /// The length prefix declares this many bytes, more than `MAX_FRAME_LEN`.
    TooLarge(usize),
    /// The stream ended in the middle of the frame.
    Truncated(Truncation),
    /// A read failed with this error.
    Failed(std::io::Error),
}

/// The meaning of a reader step.
pub open spec fn step_outcome(r: ReadStep) -> FrameOutcome {
    match r {
        ReadStep::More(next) => FrameOutcome::Pending(next.received()),
        ReadStep::Frame(body) => FrameOutcome::Frame(body@),
        ReadStep::Closed => FrameOutcome::Closed,
        ReadStep::TooLarge(n) => FrameOutcome::TooLarge(n as nat),
        ReadStep::Truncated(t) => FrameOutcome::Truncated(t),
        ReadStep::Failed(e) => FrameOutcome::Failed(e),
    }
}

impl FrameReader {
    #[verifier::type_invariant]
    spec fn well_formed(self) -> bool {
        &&& self.header@.len() <= 4
        &&& self.header@.len() < 4 ==> self.body@.len() == 0
        &&& self.header@.len() == 4 ==> {
            &&& self.body_len == spec_u32_from_le_bytes(self.header@)
            &&& self.body_len <= MAX_FRAME_LEN
            &&& self.body@.len() < self.body_len
        }
    }

    /// Every byte taken in so far, length prefix first.
    pub closed spec fn received(self) -> Seq<u8> {
        self.header@ + self.body@
    }

    /// A reader that has taken in nothing yet.
    pub fn new() -> (r: FrameReader)
        ensures
            r.received() == Seq::<u8>::empty(),
    {
        FrameReader { header: Vec::new(), body: Vec::new(), body_len: 0 }
    }

    proof fn lemma_received_facts(self)
        requires
            self.well_formed(),
        ensures
            self.received().len() >= 4 ==> {
                &&& self.received().take(4) == self.header@
                &&& declared_len(self.received()) == self.body_len
                &&& self.body_len <= MAX_FRAME_LEN
                &&& self.received().len() < 4 + self.body_len
            },
            self.received().len() < 4 ==> self.received() == self.header@,
    {
        if self.received().len() >= 4 {
            assert(self.received().take(4) =~= self.header@);
        } else {
            assert(self.received() =~= self.header@);
        }
    }

    /// How many bytes to ask of the stream now: the rest of the length prefix,
    /// then the rest of the body. Never more than the current frame holds, and
    /// never more than the largest admissible body.
    pub fn wanted(&self) -> (n: usize)
        ensures
            n == bytes_needed(self.received()),
            0 < n <= MAX_FRAME_LEN,
            partial_frame(self.received()),
    {
        proof {
            use_type_invariant(self);
            self.lemma_received_facts();
        }
        if self.header.len() < 4 {
            4 - self.header.len()
        } else {
            self.body_len - self.body.len()
        }
    }

    /// Take in what one `read` of at most `wanted()` bytes reported.
    pub fn feed(self, event: ReadEvent) -> (r: ReadStep)
        requires
            event matches ReadEvent::Bytes(b) ==> b@.len() <= bytes_needed(self.received()),
        ensures
            step_outcome(r) == step(self.received(), event),
    {
        proof {
            use_type_invariant(&self);
            self.lemma_received_facts();
            lemma_auto_spec_u32_to_from_le_bytes();
        }
        let ghost old_received = self.received();
        match event {
            ReadEvent::Interrupted => ReadStep::More(self),
            ReadEvent::Failed(e) => ReadStep::Failed(e),
            ReadEvent::Bytes(mut bytes) => {
                let got = bytes.len();
                let ghost b = bytes@;
                let FrameReader { mut header, mut body, body_len } = self;
                if header.len() < 4 {
                    match read_exact_or_eof(header.len(), 4, got) {
                        Fill::Ended(ReadEnd::Eof) => ReadStep::Closed,
                        Fill::UnexpectedEof => ReadStep::Truncated(Truncation::LengthPrefix),
                        Fill::Partial(_) => {
                            header.append(&mut bytes);
                            let next = FrameReader { header, body, body_len };
                            assert(next.received() =~= old_received + b);
                            ReadStep::More(next)
                        },
                        Fill::Ended(ReadEnd::Filled) => {
                            header.append(&mut bytes);
                            assert(header@ =~= old_received + b);
                            assert((old_received + b).take(4) =~= header@);
                            assert((old_received + b).skip(4) =~= body@);
                            let declared = u32_from_le_bytes(header.as_slice()) as usize;
                            if declared > MAX_FRAME_LEN {
                                ReadStep::TooLarge(declared)
                            } else if declared == 0 {
                                ReadStep::Frame(body)
                            } else {
                                let next = FrameReader { header, body, body_len: declared };
                                assert(next.received() =~= old_received + b);
                                ReadStep::More(next)
                            }
                        },
                    }
                } else {
                    match read_exact_or_eof(body.len(), body_len, got) {
                        Fill::Ended(ReadEnd::Filled) => {
                            body.append(&mut bytes);
                            assert((old_received + b).take(4) =~= header@);
                            assert((old_received + b).skip(4) =~= body@);
                            ReadStep::Frame(body)
                        },
                        Fill::Partial(_) => {
                            body.append(&mut bytes);
                            assert((old_received + b).take(4) =~= header@);
                            let next = FrameReader { header, body, body_len };
                            assert(next.received() =~= old_received + b);
                            ReadStep::More(next)
                        },
                        _ => ReadStep::Truncated(Truncation::Body),
                    }
                }
            },
        }
    }
}

} // verus!
