//! Cutting complete frames out of an encoder's byte stream.
//!
//! A frame opens with the two bytes `FF D8` and closes with the two bytes
//! `FF D9`. Bytes arrive in chunks of any size; the extractor keeps what it
//! has not yet been able to cut and hands out every frame exactly once.
//!
//! The extractor does not look into a payload. A frame ends at the first end
//! marker behind its start marker, so a payload that holds the bytes of an
//! end marker is cut short there, and what follows is searched for the next
//! start marker. Streams whose payloads hold neither marker come out frame
//! for frame, as `lemma_whole_frames_extracted` states.

use vstd::prelude::*;
use vstd::slice::slice_subrange;
use vstd::slice::slice_to_vec;

verus! {

/// First byte of both markers.
pub const MARKER_LEAD: u8 = 0xFF;

/// Second byte of the marker that opens a frame.
pub const START_TAG: u8 = 0xD8;

/// Second byte of the marker that closes a frame.
pub const END_TAG: u8 = 0xD9;

/// Bytes of a marker. A pass looks for a start marker while at least this
/// many bytes remain, and leaves a shorter rest for the next pass.
pub const MARKER_LEN: usize = 2;

/// Most bytes kept between two passes.
pub const MAX_BUFFERED: usize = 10485760;

/// Bytes kept from the end when the buffer has grown past `MAX_BUFFERED`.
pub const KEPT_ON_OVERFLOW: usize = 1048576;

/// Bytes asked of the encoder's output at a time.
pub const READ_SIZE: usize = 524288;

/// Milliseconds of rest after each read, so that other tasks get their turn.
pub const READ_PAUSE_MS: u64 = 1;

/// A start marker stands at index `i` of `s`.
pub open spec fn start_at(s: Seq<u8>, i: int) -> bool {
    0 <= i && i + 1 < s.len() && s[i] == MARKER_LEAD && s[i + 1] == START_TAG
}

/// An end marker stands at index `i` of `s`.
pub open spec fn end_at(s: Seq<u8>, i: int) -> bool {
    0 <= i && i + 1 < s.len() && s[i] == MARKER_LEAD && s[i + 1] == END_TAG
}

/// Index of the first end marker of `s` at or after `from`.
pub open spec fn first_end(s: Seq<u8>, from: int) -> Option<int>
    decreases s.len() - from,
{
    if from < 0 || from + 1 >= s.len() {
        None
    } else if end_at(s, from) {
        Some(from)
    } else {
        first_end(s, from + 1)
    }
}

/// What one pass over a buffer yields: the frames cut, in order, and the
/// number of leading bytes the pass is done with.
pub ghost struct Scan {
    pub frames: Seq<Seq<u8>>,
    pub consumed: int,
}

/// The pass over `s` that starts at index `pos`.
///
/// Bytes that open no frame are skipped. At a start marker the pass cuts up
/// to and including the first end marker behind it and goes on behind the
/// frame; where no end marker follows yet, the pass stops at the start
/// marker. The bounds asked of the end marker hold of every one that
/// `first_end` finds; they are written out so that the pass is seen to
/// move on.
pub open spec fn scan_from(s: Seq<u8>, pos: int) -> Scan
    decreases s.len() - pos,
{
    if pos < 0 || s.len() - pos < MARKER_LEN {
        Scan { frames: Seq::empty(), consumed: pos }
    } else if start_at(s, pos) {
        let end = first_end(s, pos + 2);
        if end.is_some() && pos + 2 <= end.unwrap() && end.unwrap() + 2 <= s.len() {
            let next = end.unwrap() + 2;
            let rest = scan_from(s, next);
            Scan { frames: seq![s.subrange(pos, next)] + rest.frames, consumed: rest.consumed }
        } else {
            Scan { frames: Seq::empty(), consumed: pos }
        }
    } else {
        scan_from(s, pos + 1)
    }
}

/// The pass over the whole of `s`.
pub open spec fn scan(s: Seq<u8>) -> Scan {
    scan_from(s, 0)
}

/// What a pass leaves of `s`: the bytes it is not done with.
pub open spec fn unconsumed(s: Seq<u8>) -> Seq<u8> {
    s.skip(scan(s).consumed)
}

/// `s` cut down to its last `KEPT_ON_OVERFLOW` bytes where it is longer than
/// `MAX_BUFFERED`, else `s` itself.
pub open spec fn bounded_tail(s: Seq<u8>) -> Seq<u8> {
    if s.len() > MAX_BUFFERED {
        s.skip(s.len() - KEPT_ON_OVERFLOW)
    } else {
        s
    }
}

/// The buffer kept after a pass over `s`.
pub open spec fn retained(s: Seq<u8>) -> Seq<u8> {
    bounded_tail(unconsumed(s))
}

/// The byte sequences that a vector of frames holds.
pub open spec fn frames_of(v: Seq<Vec<u8>>) -> Seq<Seq<u8>> {
    Seq::new(v.len(), |i: int| v[i]@)
}

/// `first_end` returns the least index at or after `from` that holds an end
/// marker, and `None` exactly where there is none.
pub proof fn lemma_first_end(s: Seq<u8>, from: int)
    requires
        0 <= from,
    ensures
        match first_end(s, from) {
            Some(e) => from <= e && e + 1 < s.len() && end_at(s, e) && forall|i: int|
                from <= i < e ==> !end_at(s, i),
            None => forall|i: int| from <= i ==> !end_at(s, i),
        },
    decreases s.len() - from,
{
    if from + 1 >= s.len() {
    } else if end_at(s, from) {
    } else {
        lemma_first_end(s, from + 1);
    }
}

/// The pass never moves backwards and never past the end.
pub proof fn lemma_scan_bounds(s: Seq<u8>, pos: int)
    requires
        0 <= pos <= s.len(),
    ensures
        pos <= scan_from(s, pos).consumed <= s.len(),
    decreases s.len() - pos,
{
    if s.len() - pos < MARKER_LEN {
    } else if start_at(s, pos) {
        lemma_first_end(s, pos + 2);
        match first_end(s, pos + 2) {
            Some(e) => {
                lemma_scan_bounds(s, e + 2);
            },
            None => {},
        }
    } else {
        lemma_scan_bounds(s, pos + 1);
    }
}

/// An end marker found in `a` is the one found once more bytes follow.
proof fn lemma_first_end_extends(a: Seq<u8>, b: Seq<u8>, from: int)
    requires
        0 <= from,
        first_end(a, from).is_some(),
    ensures
        first_end(a + b, from) == first_end(a, from),
    decreases a.len() - from,
{
    let ab = a + b;
    if from + 1 >= a.len() {
    } else {
        assert(ab[from] == a[from] && ab[from + 1] == a[from + 1]);
        if end_at(a, from) {
        } else {
            lemma_first_end_extends(a, b, from + 1);
        }
    }
}

/// Dropping `k` leading bytes moves the end marker found by `k`.
proof fn lemma_first_end_shifts(s: Seq<u8>, k: int, from: int)
    requires
        0 <= k <= s.len(),
        0 <= from,
    ensures
        first_end(s.skip(k), from) == match first_end(s, from + k) {
            Some(e) => Some(e - k),
            None => None,
        },
    decreases s.len() - k - from,
{
    let t = s.skip(k);
    if from + 1 >= t.len() {
    } else {
        assert(t[from] == s[from + k] && t[from + 1] == s[from + k + 1]);
        if end_at(t, from) {
        } else {
            lemma_first_end_shifts(s, k, from + 1);
        }
    }
}

/// A pass over `a` followed by more bytes does what the pass over `a` alone
/// did, then goes on from where that pass stopped.
proof fn lemma_scan_extends(a: Seq<u8>, b: Seq<u8>, pos: int)
    requires
        0 <= pos <= a.len(),
    ensures
        scan_from(a + b, pos).frames == scan_from(a, pos).frames + scan_from(
            a + b,
            scan_from(a, pos).consumed,
        ).frames,
        scan_from(a + b, pos).consumed == scan_from(a + b, scan_from(a, pos).consumed).consumed,
    decreases a.len() - pos,
{
    let ab = a + b;
    if a.len() - pos < MARKER_LEN {
        assert(scan_from(a, pos).frames + scan_from(ab, pos).frames == scan_from(ab, pos).frames);
    } else {
        assert(ab[pos] == a[pos] && ab[pos + 1] == a[pos + 1]);
        if start_at(a, pos) {
            lemma_first_end(a, pos + 2);
            match first_end(a, pos + 2) {
                Some(e) => {
                    lemma_first_end_extends(a, b, pos + 2);
                    lemma_scan_extends(a, b, e + 2);
                    assert(ab.subrange(pos, e + 2) == a.subrange(pos, e + 2));
                    let head = seq![a.subrange(pos, e + 2)];
                    let mid = scan_from(a, e + 2).frames;
                    let tail = scan_from(ab, scan_from(a, e + 2).consumed).frames;
                    assert(head + (mid + tail) == (head + mid) + tail);
                },
                None => {
                    assert(scan_from(a, pos).frames + scan_from(ab, pos).frames == scan_from(
                        ab,
                        pos,
                    ).frames);
                },
            }
        } else {
            lemma_scan_extends(a, b, pos + 1);
        }
    }
}

/// Dropping `k` leading bytes moves the pass by `k` and leaves its frames
/// as they are.
proof fn lemma_scan_shifts(s: Seq<u8>, k: int, pos: int)
    requires
        0 <= k <= s.len(),
        0 <= pos,
    ensures
        scan_from(s.skip(k), pos).frames == scan_from(s, pos + k).frames,
        scan_from(s.skip(k), pos).consumed + k == scan_from(s, pos + k).consumed,
    decreases s.len() - k - pos,
{
    let t = s.skip(k);
    if t.len() - pos < MARKER_LEN {
    } else {
        assert(t[pos] == s[pos + k] && t[pos + 1] == s[pos + k + 1]);
        if start_at(t, pos) {
            lemma_first_end_shifts(s, k, pos + 2);
            lemma_first_end(s, pos + k + 2);
            match first_end(s, pos + k + 2) {
                Some(e) => {
                    lemma_scan_shifts(s, k, e - k + 2);
                    assert(t.subrange(pos, e - k + 2) == s.subrange(pos + k, e + 2));
                },
                None => {},
            }
        } else {
            lemma_scan_shifts(s, k, pos + 1);
        }
    }
}

/// What one call of `feed` does to a buffer: the frames it returns and the
/// buffer it keeps.
pub ghost struct Fed {
    pub frames: Seq<Seq<u8>>,
    pub buffer: Seq<u8>,
}

/// Feeding `chunk` to an extractor that holds `buffer`.
pub open spec fn fed(buffer: Seq<u8>, chunk: Seq<u8>) -> Fed {
    Fed { frames: scan(buffer + chunk).frames, buffer: retained(buffer + chunk) }
}

/// The chunks laid end to end.
pub open spec fn joined(chunks: Seq<Seq<u8>>) -> Seq<u8>
    decreases chunks.len(),
{
    if chunks.len() == 0 {
        Seq::empty()
    } else {
        chunks[0] + joined(chunks.skip(1))
    }
}

/// Feeding the chunks one after the other to an extractor that holds
/// `buffer`.
pub open spec fn fed_all(buffer: Seq<u8>, chunks: Seq<Seq<u8>>) -> Fed
    decreases chunks.len(),
{
    if chunks.len() == 0 {
        Fed { frames: Seq::empty(), buffer }
    } else {
        let first = fed(buffer, chunks[0]);
        let rest = fed_all(first.buffer, chunks.skip(1));
        Fed { frames: first.frames + rest.frames, buffer: rest.buffer }
    }
}

/// A read split in two yields what the single read yields: the same frames
/// in the same order, and the same bytes kept. It holds wherever the first
/// part leaves no more than `MAX_BUFFERED` bytes, so that nothing is given
/// up between the two parts.
pub proof fn lemma_split_read(buffer: Seq<u8>, first: Seq<u8>, second: Seq<u8>)
    requires
        unconsumed(buffer + first).len() <= MAX_BUFFERED,
    ensures
        fed(buffer, first).frames + fed(fed(buffer, first).buffer, second).frames == fed(
            buffer,
            first + second,
        ).frames,
        fed(fed(buffer, first).buffer, second).buffer == fed(buffer, first + second).buffer,
{
    let a = buffer + first;
    let ab = a + second;
    assert(ab == buffer + (first + second));
    let cut = scan(a).consumed;
    lemma_scan_bounds(a, 0);
    lemma_scan_extends(a, second, 0);
    lemma_scan_shifts(ab, cut, 0);
    assert(unconsumed(a) + second == ab.skip(cut));
    lemma_scan_bounds(ab, cut);
    assert(ab.skip(cut).skip(scan(ab).consumed - cut) == ab.skip(scan(ab).consumed));
}

/// No chunk but the last leaves more than `MAX_BUFFERED` bytes behind, so
/// that nothing is given up between two reads.
pub open spec fn lossless(buffer: Seq<u8>, chunks: Seq<Seq<u8>>) -> bool
    decreases chunks.len(),
{
    chunks.len() <= 1 || (unconsumed(buffer + chunks[0]).len() <= MAX_BUFFERED && lossless(
        fed(buffer, chunks[0]).buffer,
        chunks.skip(1),
    ))
}

/// Extraction does not depend on how the stream is cut into reads: feeding
/// the chunks one by one yields the frames, and keeps the bytes, of one read
/// of all of them, wherever nothing is given up between two reads.
pub proof fn lemma_chunking_invariant(buffer: Seq<u8>, chunks: Seq<Seq<u8>>)
    requires
        chunks.len() > 0,
        lossless(buffer, chunks),
    ensures
        fed_all(buffer, chunks) == fed(buffer, joined(chunks)),
    decreases chunks.len(),
{
    let head = chunks[0];
    let tail = chunks.skip(1);
    let first = fed(buffer, head);
    if tail.len() == 0 {
        assert(joined(tail) == Seq::<u8>::empty());
        assert(head + joined(tail) == head);
        assert(fed_all(first.buffer, tail).frames == Seq::<Seq<u8>>::empty());
        assert(first.frames + fed_all(first.buffer, tail).frames == first.frames);
    } else {
        lemma_chunking_invariant(first.buffer, tail);
        lemma_split_read(buffer, head, joined(tail));
    }
}

/// Nothing is given up where the bytes held and read stay within
/// `MAX_BUFFERED` altogether.
pub proof fn lemma_short_streams_lossless(buffer: Seq<u8>, chunks: Seq<Seq<u8>>)
    requires
        buffer.len() + joined(chunks).len() <= MAX_BUFFERED,
    ensures
        lossless(buffer, chunks),
    decreases chunks.len(),
{
    if chunks.len() > 1 {
        lemma_scan_bounds(buffer + chunks[0], 0);
        lemma_short_streams_lossless(fed(buffer, chunks[0]).buffer, chunks.skip(1));
    }
}

/// A frame as the encoder writes it: a start marker, a payload that holds
/// neither marker, and an end marker.
pub open spec fn whole_frame(f: Seq<u8>) -> bool {
    &&& f.len() >= 2 * MARKER_LEN
    &&& start_at(f, 0)
    &&& end_at(f, f.len() - 2)
    &&& forall|i: int| 2 <= i < f.len() - 3 ==> !start_at(f, i) && !end_at(f, i)
}

/// A pass over whole frames laid end to end cuts exactly those frames and
/// leaves nothing. Of a stream whose payloads hold a marker nothing is
/// promised beyond what `scan` says.
pub proof fn lemma_whole_frames_extracted(frames: Seq<Seq<u8>>)
    requires
        forall|i: int| 0 <= i < frames.len() ==> whole_frame(#[trigger] frames[i]),
    ensures
        scan(joined(frames)).frames == frames,
        scan(joined(frames)).consumed == joined(frames).len(),
    decreases frames.len(),
{
    if frames.len() == 0 {
        assert(scan(joined(frames)).frames == frames);
    } else {
        let f = frames[0];
        let rest = frames.skip(1);
        let s = joined(frames);
        let n = f.len() as int;
        assert(whole_frame(f));
        assert forall|i: int| 0 <= i < rest.len() implies whole_frame(#[trigger] rest[i]) by {
            assert(rest[i] == frames[i + 1]);
        }
        lemma_whole_frames_extracted(rest);
        assert forall|i: int| 0 <= i < n implies s[i] == f[i] by {}
        lemma_first_end(s, 2);
        assert(end_at(s, n - 2));
        assert forall|i: int| 2 <= i < n - 2 implies !end_at(s, i) by {
            if i < n - 3 {
                assert(!end_at(f, i));
            }
        }
        assert(first_end(s, 2) == Some(n - 2));
        assert(s.subrange(0, n) == f);
        assert(s.skip(n) == joined(rest));
        lemma_scan_shifts(s, n, 0);
        assert(seq![f] + rest == frames);
    }
}

/// Every frame that a pass cuts opens with a start marker and closes with
/// the first end marker behind it: no frame is cut short or run on.
pub proof fn lemma_frames_delimited(s: Seq<u8>, pos: int, i: int)
    requires
        0 <= pos,
        0 <= i < scan_from(s, pos).frames.len(),
    ensures
        ({
            let f = scan_from(s, pos).frames[i];
            &&& f.len() >= 4
            &&& start_at(f, 0)
            &&& first_end(f, 2) == Some(f.len() - 2)
        }),
    decreases s.len() - pos,
{
    if s.len() - pos < MARKER_LEN {
    } else if start_at(s, pos) {
        lemma_first_end(s, pos + 2);
        match first_end(s, pos + 2) {
            Some(e) => {
                if i == 0 {
                    let f = s.subrange(pos, e + 2);
                    assert(scan_from(s, pos).frames[0] == f);
                    assert(f[0] == s[pos] && f[1] == s[pos + 1]);
                    assert forall|j: int| 0 <= j < f.len() implies f[j] == s[pos + j] by {}
                    lemma_first_end(f, 2);
                    assert(end_at(f, e - pos));
                    assert forall|j: int| 2 <= j < e - pos implies !end_at(f, j) by {
                        assert(!end_at(s, pos + j));
                    }
                } else {
                    assert(scan_from(s, pos).frames[i] == scan_from(s, e + 2).frames[i - 1]);
                    lemma_frames_delimited(s, e + 2, i - 1);
                }
            },
            None => {},
        }
    } else {
        lemma_frames_delimited(s, pos + 1, i);
    }
}

/// Finds the first end marker of `data` at or after `from`.
fn find_end(data: &[u8], from: usize) -> (r: Option<usize>)
    requires
        from <= data@.len(),
    ensures
        match r {
            Some(e) => first_end(data@, from as int) == Some(e as int) && from <= e && e + 1
                < data@.len(),
            None => first_end(data@, from as int).is_none(),
        },
{
    let len: usize = data.len();
    let mut i: usize = from;
    while len - i > 1
        invariant
            from <= i <= len,
            len == data@.len(),
            first_end(data@, from as int) == first_end(data@, i as int),
        decreases len - i,
    {
        if data[i] == MARKER_LEAD && data[i + 1] == END_TAG {
            return Some(i);
        }
        i += 1;
    }
    None
}

/// Cuts frames out of a byte stream that arrives in chunks.
pub struct FrameExtractor {
    buffer: Vec<u8>,
}

impl View for FrameExtractor {
    type V = Seq<u8>;

    /// The bytes received and not yet cut into a frame or given up.
    closed spec fn view(&self) -> Seq<u8> {
        self.buffer@
    }
}

impl FrameExtractor {
    /// An extractor that holds no bytes.
    pub fn new() -> (r: FrameExtractor)
        ensures
            r@ == Seq::<u8>::empty(),
    {
        FrameExtractor { buffer: Vec::new() }
    }

    /// Number of bytes held.
    pub fn buffered(&self) -> (n: usize)
        ensures
            n == self@.len(),
    {
        self.buffer.len()
    }

    /// Takes the next chunk of the stream and returns the frames that are now
    /// complete, in stream order.
    ///
    /// The frames are those of one pass over the bytes held followed by
    /// `chunk`. The extractor keeps what the pass left, cut down to its last
    /// `KEPT_ON_OVERFLOW` bytes where more than `MAX_BUFFERED` are left.
    pub fn feed(&mut self, chunk: &[u8]) -> (frames: Vec<Vec<u8>>)
        ensures
            frames_of(frames@) == scan(old(self)@ + chunk@).frames,
            frames@.len() == scan(old(self)@ + chunk@).frames.len(),
            forall|i: int|
                0 <= i < frames@.len() ==> (#[trigger] frames@[i])@ == scan(
                    old(self)@ + chunk@,
                ).frames[i],
            final(self)@ == retained(old(self)@ + chunk@),
            final(self)@.len() <= MAX_BUFFERED,
    {
        self.buffer.extend_from_slice(chunk);
        let ghost s = self.buffer@;
        assert(s =~= old(self)@ + chunk@);
        let len: usize = self.buffer.len();
        let mut pos: usize = 0;
        let mut frames: Vec<Vec<u8>> = Vec::new();
        assert(frames_of(frames@) + scan_from(s, 0).frames == scan(s).frames);
        while len - pos >= MARKER_LEN
            invariant
                pos <= len,
                len == s.len(),
                self.buffer@ == s,
                scan(s).frames == frames_of(frames@) + scan_from(s, pos as int).frames,
                scan(s).consumed == scan_from(s, pos as int).consumed,
            ensures
                pos <= len,
                self.buffer@ == s,
                scan(s).frames == frames_of(frames@),
                scan(s).consumed == pos,
            decreases len - pos,
        {
            if self.buffer[pos] == MARKER_LEAD && self.buffer[pos + 1] == START_TAG {
                match find_end(self.buffer.as_slice(), pos + 2) {
                    Some(e) => {
                        let frame = slice_to_vec(slice_subrange(self.buffer.as_slice(), pos, e + 2));
                        proof {
                            assert(frames_of(frames@.push(frame)) == frames_of(frames@) + seq![
                                s.subrange(pos as int, e + 2),
                            ]);
                        }
                        frames.push(frame);
                        pos = e + 2;
                    },
                    None => {
                        break ;
                    },
                }
            } else {
                pos += 1;
            }
        }
        if pos > 0 {
            let tail = self.buffer.split_off(pos);
            self.buffer = tail;
        }
        assert(self.buffer@ == unconsumed(s));
        let held: usize = self.buffer.len();
        if held > MAX_BUFFERED {
            let tail = self.buffer.split_off(held - KEPT_ON_OVERFLOW);
            self.buffer = tail;
        }
        frames
    }
}

} // verus!
