//! Transport framing: turning a byte stream into a stream of frames, each
//! holding the bytes of exactly one line-delimited value, and back.
//!
//! The wire format is one value per line, newline-terminated. The framer
//! buffers partial input: as long as the buffered bytes hold no complete
//! non-blank line, decoding reports "no value yet" and keeps the bytes for
//! the next read; blank lines are consumed and skipped. Turning the bytes
//! of one frame into a value, and a value into bytes, is the hosting
//! process's codec and out of scope here; a frame's payload therefore never
//! contains a raw newline, which the codec guarantees by escaping control
//! characters.

use vstd::prelude::*;

verus! {

/// The byte that terminates a frame.
pub open spec fn newline_byte() -> u8 {
    10u8
}

/// Whether `b` is ASCII whitespace: space, tab, newline, form feed or
/// carriage return.
pub open spec fn is_ws(b: u8) -> bool {
    b == 32u8 || b == 9u8 || b == 10u8 || b == 12u8 || b == 13u8
}

/// Whether every byte of `s` is ASCII whitespace.
pub open spec fn all_ws(s: Seq<u8>) -> bool {
    forall|i: int| 0 <= i < s.len() ==> is_ws(#[trigger] s[i])
}

/// The index of the first newline byte in `s`, if any.
pub open spec fn first_newline(s: Seq<u8>) -> Option<int>
    decreases s.len(),
{
    if s.len() == 0 {
        None
    } else if s[0] == newline_byte() {
        Some(0int)
    } else {
        match first_newline(s.drop_first()) {
            Some(i) => Some(i + 1),
            None => None,
        }
    }
}

/// What [`first_newline`] finds: the least index holding a newline byte,
/// or nothing when no byte is a newline.
pub proof fn lemma_first_newline_props(s: Seq<u8>)
    ensures
        match first_newline(s) {
            Some(i) => 0 <= i < s.len() && s[i] == newline_byte() && forall|j: int|
                0 <= j < i ==> s[j] != newline_byte(),
            None => forall|j: int| 0 <= j < s.len() ==> s[j] != newline_byte(),
        },
    decreases s.len(),
{
    if s.len() > 0 && s[0] != newline_byte() {
        let t = s.drop_first();
        lemma_first_newline_props(t);
        if first_newline(t) is Some {
            let i = first_newline(t)->0;
            assert(s[i + 1] == t[i]);
            assert forall|j: int| 0 <= j < i + 1 implies s[j] != newline_byte() by {
                if j > 0 {
                    assert(s[j] == t[j - 1]);
                }
            }
        } else {
            assert forall|j: int| 0 <= j < s.len() implies s[j] != newline_byte() by {
                if j > 0 {
                    assert(s[j] == t[j - 1]);
                }
            }
        }
    }
}

/// [`first_newline`] finds exactly the least newline position.
pub proof fn lemma_first_newline_at(s: Seq<u8>, i: int)
    requires
        0 <= i < s.len(),
        s[i] == newline_byte(),
        forall|j: int| 0 <= j < i ==> s[j] != newline_byte(),
    ensures
        first_newline(s) == Some(i),
    decreases s.len(),
{
    if i > 0 {
        lemma_first_newline_at(s.drop_first(), i - 1);
    }
}

/// The result of one decoding attempt on buffered bytes: the first
/// complete non-blank line, if there is one, and the bytes the buffer
/// retains. Blank lines are consumed; a trailing partial line is retained,
/// except that a buffer of nothing but whitespace is consumed whole.
pub open spec fn spec_next_frame(s: Seq<u8>) -> (Option<Seq<u8>>, Seq<u8>)
    decreases s.len(),
    via spec_next_frame_decreases
{
    match first_newline(s) {
        Some(i) => {
            let line = s.subrange(0, i);
            let rest = s.subrange(i + 1, s.len() as int);
            if all_ws(line) {
                spec_next_frame(rest)
            } else {
                (Some(line), rest)
            }
        },
        None => {
            if all_ws(s) {
                (None, Seq::empty())
            } else {
                (None, s)
            }
        },
    }
}

#[via_fn]
proof fn spec_next_frame_decreases(s: Seq<u8>) {
    lemma_first_newline_props(s);
}

/// Framing round-trip, encoding direction: a frame whose payload holds no
/// raw newline and is not blank decodes from its own encoding, with
/// nothing retained.
pub proof fn lemma_frame_round_trip(payload: Seq<u8>)
    requires
        !payload.contains(newline_byte()),
        !all_ws(payload),
    ensures
        spec_next_frame(payload + seq![newline_byte()]) == (Some(payload), Seq::<u8>::empty()),
{
    let framed = payload + seq![newline_byte()];
    assert forall|j: int| 0 <= j < payload.len() implies framed[j] != newline_byte() by {
        assert(framed[j] == payload[j]);
        assert(!payload.contains(newline_byte()));
        assert(payload[j] != newline_byte()) by {
            if payload[j] == newline_byte() {
                assert(payload.contains(newline_byte()));
            }
        }
    }
    lemma_first_newline_at(framed, payload.len() as int);
    assert(framed.subrange(0, payload.len() as int) =~= payload);
    assert(framed.subrange(payload.len() as int + 1, framed.len() as int) =~= Seq::<u8>::empty());
}

/// Framing round-trip, truncation direction: any strict prefix of an
/// encoded frame whose payload holds no raw newline yields "no value yet",
/// never a value and never an error.
pub proof fn lemma_truncated_frame_pending(payload: Seq<u8>, n: int)
    requires
        !payload.contains(newline_byte()),
        0 <= n <= payload.len(),
    ensures
        spec_next_frame((payload + seq![newline_byte()]).subrange(0, n)).0 is None,
{
    let prefix = (payload + seq![newline_byte()]).subrange(0, n);
    assert forall|j: int| 0 <= j < prefix.len() implies prefix[j] != newline_byte() by {
        assert(prefix[j] == payload[j]);
        if payload[j] == newline_byte() {
            assert(payload.contains(newline_byte()));
        }
    }
    lemma_first_newline_props(prefix);
    if first_newline(prefix) is Some {
        let i = first_newline(prefix)->0;
        assert(prefix[i] != newline_byte());
    }
}

/// The line-delimited codec: encodes one frame per value and scans
/// buffered bytes for the next complete frame.
pub struct Json;

impl Json {
    /// Append one frame holding `value` to `dst`: the payload bytes,
    /// newline-terminated.
    pub fn encode(&self, value: &Vec<u8>, dst: &mut Vec<u8>)
        ensures
            final(dst)@ == old(dst)@ + value@ + seq![newline_byte()],
    {
        let mut i: usize = 0;
        while i < value.len()
            invariant
                0 <= i <= value.len(),
                dst@ == old(dst)@ + value@.subrange(0, i as int),
            decreases value.len() - i,
        {
            dst.push(value[i]);
            i = i + 1;
            proof {
                assert(value@.subrange(0, i as int) =~= value@.subrange(0, i - 1) + seq![
                    value@[i - 1],
                ]);
            }
        }
        proof {
            assert(value@.subrange(0, value@.len() as int) =~= value@);
        }
        dst.push(10u8);
    }

    /// Scan `src` for the next complete non-blank line. Returns the line's
    /// bytes with the line consumed from the buffer, or nothing when the
    /// buffered bytes hold no complete value yet, retaining them (a buffer
    /// of nothing but whitespace is consumed). Exactly
    /// [`spec_next_frame`] on the buffered bytes.
    pub fn decode(&self, src: &mut Vec<u8>) -> (r: Option<Vec<u8>>)
        ensures
            match r {
                Some(line) => spec_next_frame(old(src)@).0 == Some(line@),
                None => spec_next_frame(old(src)@).0 is None,
            },
            final(src)@ == spec_next_frame(old(src)@).1,
    {
        loop
            invariant
                spec_next_frame(src@) == spec_next_frame(old(src)@),
            decreases src@.len(),
        {
            proof {
                lemma_first_newline_props(src@);
            }
            match find_newline(src) {
                Some(i) => {
                    let n = src.len();
                    proof {
                        lemma_first_newline_props(src@);
                        assert(i < src@.len());
                    }
                    let blank = all_ws_prefix(src, i);
                    let line = copy_range(src, 0, i);
                    let rest = copy_range(src, i + 1, n);
                    proof {
                        assert(line@ =~= src@.subrange(0, i as int));
                        assert(rest@ =~= src@.subrange(i + 1, src@.len() as int));
                    }
                    *src = rest;
                    if !blank {
                        return Some(line);
                    }
                },
                None => {
                    if all_ws_prefix(src, src.len()) {
                        proof {
                            assert(src@.subrange(0, src@.len() as int) =~= src@);
                        }
                        src.clear();
                        return None;
                    } else {
                        proof {
                            assert(src@.subrange(0, src@.len() as int) =~= src@);
                        }
                        return None;
                    }
                },
            }
        }
    }
}

/// The index of the first newline byte in `v`, if any; exactly
/// [`first_newline`] on the buffer's bytes.
fn find_newline(v: &Vec<u8>) -> (r: Option<usize>)
    ensures
        match r {
            Some(i) => first_newline(v@) == Some(i as int),
            None => first_newline(v@) is None,
        },
{
    let mut i: usize = 0;
    while i < v.len()
        invariant
            0 <= i <= v.len(),
            forall|j: int| 0 <= j < i ==> v@[j] != newline_byte(),
        decreases v.len() - i,
    {
        if v[i] == 10u8 {
            proof {
                lemma_first_newline_at(v@, i as int);
            }
            return Some(i);
        }
        i = i + 1;
    }
    proof {
        lemma_first_newline_props(v@);
        if first_newline(v@) is Some {
            let k = first_newline(v@)->0;
            assert(v@[k] != newline_byte());
        }
    }
    None
}

/// Whether the first `end` bytes of `v` are all ASCII whitespace.
fn all_ws_prefix(v: &Vec<u8>, end: usize) -> (r: bool)
    requires
        end <= v.len(),
    ensures
        r == all_ws(v@.subrange(0, end as int)),
{
    let mut i: usize = 0;
    while i < end
        invariant
            0 <= i <= end <= v.len(),
            forall|j: int| 0 <= j < i ==> is_ws(#[trigger] v@[j]),
        decreases end - i,
    {
        let b = v[i];
        if !(b == 32u8 || b == 9u8 || b == 10u8 || b == 12u8 || b == 13u8) {
            assert(!is_ws(v@.subrange(0, end as int)[i as int]));
            return false;
        }
        i = i + 1;
    }
    assert forall|j: int| 0 <= j < end implies is_ws(#[trigger] v@.subrange(0, end as int)[j]) by {
        assert(v@.subrange(0, end as int)[j] == v@[j]);
    }
    true
}

/// The bytes of `v` from `start` (inclusive) to `end` (exclusive), as a
/// fresh buffer.
fn copy_range(v: &Vec<u8>, start: usize, end: usize) -> (r: Vec<u8>)
    requires
        start <= end <= v.len(),
    ensures
        r@ == v@.subrange(start as int, end as int),
{
    let mut out: Vec<u8> = Vec::new();
    let mut i: usize = start;
    while i < end
        invariant
            start <= i <= end <= v.len(),
            out@ == v@.subrange(start as int, i as int),
        decreases end - i,
    {
        out.push(v[i]);
        i = i + 1;
        proof {
            assert(v@.subrange(start as int, i as int) =~= v@.subrange(start as int, i - 1)
                + seq![v@[i - 1]]);
        }
    }
    out
}

/// Adapts a transport to a frame sink and a frame stream: buffers inbound
/// bytes until they hold a complete value, and encodes outbound frames.
/// The transport itself — whatever reads and writes the raw bytes — is
/// owned but never interpreted here.
pub struct Framed<Transport> {
    /// The underlying transport.
    pub inner: Transport,
    /// The codec applied to the buffered bytes.
    pub codec: Json,
    /// Inbound bytes not yet consumed by a decoded frame.
    pub read_buf: Vec<u8>,
}

impl<Transport> Framed<Transport> {
    /// Creates a new `Framed` with the given transport and codec, with
    /// nothing buffered.
    pub fn new(inner: Transport, codec: Json) -> (r: Self)
        ensures
            r.inner == inner,
            r.read_buf@ == Seq::<u8>::empty(),
    {
        Framed { inner, codec, read_buf: Vec::new() }
    }

    /// Returns a reference to the underlying transport.
    pub fn get_ref(&self) -> (r: &Transport)
        ensures
            r == &self.inner,
    {
        &self.inner
    }

    /// Returns a mutable reference to the underlying transport. Care
    /// should be taken not to tamper with it mid-frame.
    pub fn get_mut(&mut self) -> (r: &mut Transport)
        ensures
            *r == old(self).inner,
            *final(self) == (Framed {
                inner: *final(r),
                ..*old(self)
            }),
    {
        &mut self.inner
    }

    /// Consumes the `Framed`, returning its underlying transport.
    pub fn into_inner(self) -> (r: Transport)
        ensures
            r == self.inner,
    {
        self.inner
    }

    /// Add bytes read from the transport to the inbound buffer.
    pub fn push_bytes(&mut self, chunk: &[u8])
        ensures
            final(self).read_buf@ == old(self).read_buf@ + chunk@,
            final(self).inner == old(self).inner,
    {
        let mut i: usize = 0;
        while i < chunk.len()
            invariant
                0 <= i <= chunk@.len(),
                self.read_buf@ == old(self).read_buf@ + chunk@.subrange(0, i as int),
                self.inner == old(self).inner,
            decreases chunk@.len() - i,
        {
            self.read_buf.push(chunk[i]);
            i = i + 1;
            proof {
                assert(chunk@.subrange(0, i as int) =~= chunk@.subrange(0, i - 1) + seq![
                    chunk@[i - 1],
                ]);
            }
        }
        proof {
            assert(chunk@.subrange(0, chunk@.len() as int) =~= chunk@);
        }
    }

    /// The next complete non-blank frame of the buffered bytes, if any,
    /// consuming it; exactly [`spec_next_frame`] on the buffer.
    pub fn next_frame(&mut self) -> (r: Option<Vec<u8>>)
        ensures
            match r {
                Some(line) => spec_next_frame(old(self).read_buf@).0 == Some(line@),
                None => spec_next_frame(old(self).read_buf@).0 is None,
            },
            final(self).read_buf@ == spec_next_frame(old(self).read_buf@).1,
            final(self).inner == old(self).inner,
    {
        self.codec.decode(&mut self.read_buf)
    }

    /// Encode one frame holding `value` onto `dst`, ready for the
    /// transport to write.
    pub fn encode_frame(&self, value: &Vec<u8>, dst: &mut Vec<u8>)
        ensures
            final(dst)@ == old(dst)@ + value@ + seq![newline_byte()],
    {
        self.codec.encode(value, dst)
    }
}

} // verus!
