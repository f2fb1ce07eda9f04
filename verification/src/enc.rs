//! Length-delimited framing: a frame is a payload followed by the four-byte
//! delimiter `\r\n\r\n`. The decoder keeps a scan cursor so appended bytes
//! never cause a re-scan, rewinding only far enough that a delimiter
//! straddling an append boundary is still found.

use crate::json::{json_of, parse_json};
use crate::req::{append_envelope_json, envelope_json, RequestEnvelope};
use crate::res::{response_from_json, response_of, Response, ResponseView};
use vstd::prelude::*;

verus! {

/// The frame delimiter, `\r\n\r\n`.
pub open spec fn delim() -> Seq<u8> {
    seq![13u8, 10u8, 13u8, 10u8]
}

/// The delimiter occupies positions `i..i + 4` of `b`.
pub open spec fn has_delim_at(b: Seq<u8>, i: int) -> bool {
    &&& 0 <= i
    &&& i + 4 <= b.len()
    &&& b[i] == 13u8
    &&& b[i + 1] == 10u8
    &&& b[i + 2] == 13u8
    &&& b[i + 3] == 10u8
}

/// Position `i` of `b` can never begin a delimiter, no matter what bytes are
/// appended later: some byte already present contradicts it.
pub open spec fn cannot_start_delim(b: Seq<u8>, i: int) -> bool {
    ||| (i < b.len() && b[i] != 13u8)
    ||| (i + 1 < b.len() && b[i + 1] != 10u8)
    ||| (i + 2 < b.len() && b[i + 2] != 13u8)
    ||| (i + 3 < b.len() && b[i + 3] != 10u8)
}

/// The first position at or after `i` where the delimiter occurs.
pub open spec fn find_delim_from(b: Seq<u8>, i: int) -> Option<int>
    decreases b.len() - i,
{
    if i < 0 || i + 4 > b.len() {
        None
    } else if has_delim_at(b, i) {
        Some(i)
    } else {
        find_delim_from(b, i + 1)
    }
}

/// The payloads of all complete frames in `b`, in order.
pub open spec fn frames_of(b: Seq<u8>) -> Seq<Seq<u8>>
    decreases b.len(),
{
    match find_delim_from(b, 0) {
        Some(i) => if 0 <= i && i + 4 <= b.len() {
            seq![b.subrange(0, i)] + frames_of(b.subrange(i + 4, b.len() as int))
        } else {
            Seq::empty()
        },
        None => Seq::empty(),
    }
}

/// What remains of `b` after all complete frames are removed.
pub open spec fn frame_rest(b: Seq<u8>) -> Seq<u8>
    decreases b.len(),
{
    match find_delim_from(b, 0) {
        Some(i) => if 0 <= i && i + 4 <= b.len() {
            frame_rest(b.subrange(i + 4, b.len() as int))
        } else {
            b
        },
        None => b,
    }
}

/// A payload that holds no carriage return; every frame the library emits is
/// such a payload, and for these framing is invertible.
pub open spec fn cr_free(p: Seq<u8>) -> bool {
    forall|i: int| 0 <= i < p.len() ==> p[i] != 13u8
}

/// One frame on the wire: the payload followed by the delimiter.
pub open spec fn frame_bytes(p: Seq<u8>) -> Seq<u8> {
    p + delim()
}

/// The concatenation of the frames of all the given payloads.
pub open spec fn concat_frames(ps: Seq<Seq<u8>>) -> Seq<u8>
    decreases ps.len(),
{
    if ps.len() == 0 {
        Seq::empty()
    } else {
        frame_bytes(ps[0]) + concat_frames(ps.drop_first())
    }
}

proof fn lemma_find_skip(b: Seq<u8>, i: int)
    requires
        0 <= i <= b.len(),
        forall|k: int| 0 <= k < i ==> !has_delim_at(b, k),
    ensures
        find_delim_from(b, 0) == find_delim_from(b, i),
    decreases i,
{
    if i > 0 {
        lemma_find_skip(b, i - 1);
    }
}

proof fn lemma_find_is_first(b: Seq<u8>, j: int)
    requires
        has_delim_at(b, j),
        forall|k: int| 0 <= k < j ==> !has_delim_at(b, k),
    ensures
        find_delim_from(b, 0) == Some(j),
{
    lemma_find_skip(b, j);
}

proof fn lemma_find_none_from(b: Seq<u8>, i: int, k: int)
    requires
        0 <= i <= k,
        find_delim_from(b, i) is None,
    ensures
        !has_delim_at(b, k),
    decreases k - i,
{
    if i + 4 > b.len() {
        // no window of four bytes fits at or after i
    } else if i < k {
        lemma_find_none_from(b, i + 1, k);
    }
}

/// A decoder over an internal byte buffer: bytes arrive with `push`, and
/// `decode_frame` removes and returns the first complete frame's payload.
pub struct EnetDecoder {
    buf: Vec<u8>,
    next_index: usize,
}

impl EnetDecoder {
    /// The bytes buffered and not yet consumed as frames.
    pub closed spec fn contents(self) -> Seq<u8> {
        self.buf@
    }

    /// The scan cursor never points past a position that could still begin a
    /// delimiter.
    pub closed spec fn wf(self) -> bool {
        &&& self.next_index <= self.buf@.len()
        &&& forall|i: int|
            0 <= i < self.next_index ==> cannot_start_delim(self.buf@, i)
    }

    pub fn new() -> (r: EnetDecoder)
        ensures
            r.wf(),
            r.contents() == Seq::<u8>::empty(),
    {
        let r = EnetDecoder { buf: Vec::new(), next_index: 0 };
        proof {
            assert(r.contents() =~= Seq::<u8>::empty());
        }
        r
    }

    /// Append received bytes to the buffer.
    pub fn push(&mut self, data: &[u8])
        requires
            old(self).wf(),
        ensures
            final(self).wf(),
            final(self).contents() == old(self).contents() + data@,
    {
        let ghost prev = self.buf@;
        self.buf.extend_from_slice(data);
        proof {
            assert(self.buf@ == prev + data@);
            assert forall|i: int| 0 <= i < self.next_index implies cannot_start_delim(
                self.buf@,
                i,
            ) by {
                assert(cannot_start_delim(prev, i));
            }
        }
    }

    /// Remove and return the first complete frame's payload, or `None` if no
    /// full delimiter is buffered yet.
    pub fn decode_frame(&mut self) -> (r: Option<Vec<u8>>)
        requires
            old(self).wf(),
        ensures
            final(self).wf(),
            match r {
                Some(p) => {
                    &&& find_delim_from(old(self).contents(), 0) == Some(p@.len() as int)
                    &&& p@ == old(self).contents().subrange(0, p@.len() as int)
                    &&& final(self).contents() == old(self).contents().subrange(
                        p@.len() as int + 4,
                        old(self).contents().len() as int,
                    )
                },
                None => {
                    &&& final(self).contents() == old(self).contents()
                    &&& find_delim_from(old(self).contents(), 0) is None
                },
            },
    {
        proof {
            assert forall|k: int| 0 <= k < self.next_index implies !has_delim_at(
                self.buf@,
                k,
            ) by {
                assert(cannot_start_delim(self.buf@, k));
            }
        }
        match scan_delim(&self.buf, self.next_index) {
            Some(j) => {
                let len = self.buf.len();
                let mut payload: Vec<u8> = Vec::new();
                let mut t: usize = 0;
                while t < j
                    invariant
                        t <= j,
                        j + 4 <= self.buf@.len(),
                        payload@ == self.buf@.subrange(0, t as int),
                    decreases j - t,
                {
                    payload.push(self.buf[t]);
                    proof {
                        assert(payload@ =~= self.buf@.subrange(0, t + 1));
                    }
                    t = t + 1;
                }
                let mut rest: Vec<u8> = Vec::new();
                let mut u: usize = j + 4;
                while u < len
                    invariant
                        j + 4 <= u <= len,
                        len == self.buf@.len(),
                        rest@ == self.buf@.subrange(j + 4, u as int),
                    decreases len - u,
                {
                    rest.push(self.buf[u]);
                    proof {
                        assert(rest@ =~= self.buf@.subrange(j + 4, u + 1));
                    }
                    u = u + 1;
                }
                let ghost prev = self.buf@;
                self.buf = rest;
                self.next_index = 0;
                proof {
                    assert(payload@ =~= prev.subrange(0, j as int));
                    assert(self.buf@ =~= prev.subrange(j + 4, prev.len() as int));
                }
                Some(payload)
            },
            None => {
                let len = self.buf.len();
                if len >= 3 && self.buf[len - 3] == 13 && self.buf[len - 2] == 10 && self.buf[len
                    - 1] == 13 {
                    self.next_index = len - 3;
                    proof {
                        assert forall|i: int| 0 <= i < len - 3 implies cannot_start_delim(
                            self.buf@,
                            i,
                        ) by {
                            lemma_find_none_from(self.buf@, 0, i);
                        }
                    }
                } else if len >= 2 && self.buf[len - 2] == 13 && self.buf[len - 1] == 10 {
                    self.next_index = len - 2;
                    proof {
                        assert forall|i: int| 0 <= i < len - 2 implies cannot_start_delim(
                            self.buf@,
                            i,
                        ) by {
                            if i + 4 <= len {
                                lemma_find_none_from(self.buf@, 0, i);
                            }
                        }
                    }
                } else if len >= 1 && self.buf[len - 1] == 13 {
                    self.next_index = len - 1;
                    proof {
                        assert forall|i: int| 0 <= i < len - 1 implies cannot_start_delim(
                            self.buf@,
                            i,
                        ) by {
                            if i + 4 <= len {
                                lemma_find_none_from(self.buf@, 0, i);
                            }
                        }
                    }
                } else {
                    self.next_index = len;
                    proof {
                        assert forall|i: int| 0 <= i < len implies cannot_start_delim(
                            self.buf@,
                            i,
                        ) by {
                            if i + 4 <= len {
                                lemma_find_none_from(self.buf@, 0, i);
                            }
                        }
                    }
                }
                None
            },
        }
    }
}

/// Find the first delimiter at or after `start`, given that none begins
/// before `start`.
fn scan_delim(buf: &Vec<u8>, start: usize) -> (r: Option<usize>)
    requires
        start <= buf@.len(),
        forall|k: int| 0 <= k < start ==> !has_delim_at(buf@, k),
    ensures
        match r {
            Some(j) => {
                &&& find_delim_from(buf@, 0) == Some(j as int)
                &&& start <= j
                &&& j + 4 <= buf@.len()
            },
            None => find_delim_from(buf@, 0) is None,
        },
{
    let len = buf.len();
    if len < 4 || start > len - 4 {
        proof {
            assert forall|k: int| 0 <= k < len implies !has_delim_at(buf@, k) by {}
            lemma_find_skip(buf@, len as int);
        }
        return None;
    }
    let mut i = start;
    while i <= len - 4
        invariant
            start <= i <= len,
            len == buf@.len(),
            len >= 4,
            forall|k: int| 0 <= k < i ==> !has_delim_at(buf@, k),
        decreases len - i,
    {
        if buf[i] == 13 && buf[i + 1] == 10 && buf[i + 2] == 13 && buf[i + 3] == 10 {
            proof {
                lemma_find_is_first(buf@, i as int);
            }
            return Some(i);
        }
        proof {
            assert(!has_delim_at(buf@, i as int));
        }
        i = i + 1;
    }
    proof {
        assert forall|k: int| 0 <= k < len implies !has_delim_at(buf@, k) by {}
        lemma_find_skip(buf@, len as int);
    }
    None
}

/// Raised when a complete frame's payload is not a protocol response: not
/// JSON, or an object without string `CMD` and `PROTOCOL`, or a known kind
/// whose body is malformed.
#[derive(Debug, Clone, Copy, PartialEq, Eq, Structural)]
pub enum EnetDecoderError {
    JsonError,
}

/// What decoding one buffered frame yields: nothing while no frame is
/// complete, an error for a payload that is not a response, or the typed
/// response.
pub open spec fn decoded_of(b: Seq<u8>) -> Option<Option<ResponseView>> {
    match find_delim_from(b, 0) {
        None => None,
        Some(i) => match json_of(b.subrange(0, i)) {
            None => Some(None),
            Some(jv) => Some(response_of(jv)),
        },
    }
}

impl EnetDecoder {
    /// Remove the first complete frame and parse it as a response. `Ok(None)`
    /// means more bytes are needed; an error means the stream is broken and
    /// the connection must be rebuilt.
    pub fn decode(&mut self) -> (r: Result<Option<Response>, EnetDecoderError>)
        requires
            old(self).wf(),
        ensures
            final(self).wf(),
            match r {
                Ok(None) => {
                    &&& decoded_of(old(self).contents()) is None
                    &&& final(self).contents() == old(self).contents()
                },
                Ok(Some(resp)) => {
                    &&& decoded_of(old(self).contents()) == Some(Some(resp@))
                    &&& (find_delim_from(old(self).contents(), 0) matches Some(i)
                        && final(self).contents() == old(self).contents().subrange(
                        i + 4,
                        old(self).contents().len() as int,
                    ))
                },
                Err(_) => {
                    &&& (decoded_of(old(self).contents()) matches Some(d) && d is None)
                    &&& (find_delim_from(old(self).contents(), 0) matches Some(i)
                        && final(self).contents() == old(self).contents().subrange(
                        i + 4,
                        old(self).contents().len() as int,
                    ))
                },
            },
    {
        match self.decode_frame() {
            None => Ok(None),
            Some(payload) => {
                match parse_json(payload.as_slice()) {
                    None => Err(EnetDecoderError::JsonError),
                    Some(jv) => match response_from_json(jv) {
                        None => Err(EnetDecoderError::JsonError),
                        Some(resp) => Ok(Some(resp)),
                    },
                }
            },
        }
    }
}

/// The stateless frame encoder for request envelopes.
pub struct EnetEncoder;

impl EnetEncoder {
    pub fn new() -> (r: EnetEncoder)
        ensures
            r == EnetEncoder,
    {
        EnetEncoder
    }

    /// Append the envelope's JSON text and the frame delimiter to `buf`.
    pub fn encode(&mut self, item: &RequestEnvelope, buf: &mut Vec<u8>)
        ensures
            final(buf)@ == old(buf)@ + frame_bytes(envelope_json(*item)),
    {
        let ghost start = buf@;
        append_envelope_json(buf, item);
        buf.push(13);
        buf.push(10);
        buf.push(13);
        buf.push(10);
        proof {
            assert(buf@ =~= start + frame_bytes(envelope_json(*item)));
        }
    }
}

/// Framing round-trip: the framed concatenation of any carriage-return-free
/// payloads splits back into exactly those payloads, with nothing left over.
/// Because the decoder's behaviour depends only on the bytes buffered so
/// far, the split is the same however the byte stream is chunked.
pub proof fn lemma_framing_round_trip(ps: Seq<Seq<u8>>)
    requires
        forall|i: int| 0 <= i < ps.len() ==> cr_free(#[trigger] ps[i]),
    ensures
        frames_of(concat_frames(ps)) == ps,
        frame_rest(concat_frames(ps)) == Seq::<u8>::empty(),
    decreases ps.len(),
{
    if ps.len() == 0 {
        assert(concat_frames(ps).len() == 0);
        assert(frames_of(concat_frames(ps)) =~= ps);
    } else {
        let p0 = ps[0];
        let tail = ps.drop_first();
        let b = concat_frames(ps);
        let n = p0.len() as int;
        assert(b == frame_bytes(p0) + concat_frames(tail));
        assert(has_delim_at(b, n));
        assert forall|k: int| 0 <= k < n implies !has_delim_at(b, k) by {
            assert(b[k] == p0[k]);
            assert(p0[k] != 13u8);
        }
        lemma_find_is_first(b, n);
        assert(b.subrange(0, n) =~= p0);
        assert(b.subrange(n + 4, b.len() as int) =~= concat_frames(tail));
        lemma_framing_round_trip(tail);
        assert(frames_of(b) =~= seq![p0] + frames_of(concat_frames(tail)));
        assert(frames_of(b) =~= ps);
    }
}

/// Boundary safety: a buffer that is a carriage-return-free payload followed
/// by any proper prefix of the delimiter holds no complete frame; once the
/// rest of the delimiter arrives, it holds exactly that one payload.
pub proof fn lemma_boundary_safety(p: Seq<u8>, m: int)
    requires
        cr_free(p),
        0 <= m < 4,
    ensures
        find_delim_from(p + delim().subrange(0, m), 0) is None,
        frames_of(p + delim().subrange(0, m) + delim().subrange(m, 4)) == seq![p],
{
    let b = p + delim().subrange(0, m);
    assert forall|k: int| 0 <= k < b.len() implies !has_delim_at(b, k) by {
        if k < p.len() {
            assert(b[k] == p[k]);
            assert(p[k] != 13u8);
        } else {
            assert(k + 4 > b.len());
        }
    }
    lemma_find_skip(b, b.len() as int);
    let full = p + delim().subrange(0, m) + delim().subrange(m, 4);
    assert(full =~= concat_frames(seq![p])) by {
        assert(concat_frames(seq![p]) == frame_bytes(p) + concat_frames(
            seq![p].drop_first(),
        ));
        assert(seq![p].drop_first() =~= Seq::<Seq<u8>>::empty());
        assert(concat_frames(Seq::<Seq<u8>>::empty()) =~= Seq::<u8>::empty());
        assert(full =~= frame_bytes(p));
    }
    lemma_framing_round_trip(seq![p]);
}

} // verus!
