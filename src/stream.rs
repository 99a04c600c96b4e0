//! Reassembly of server-sent-event frames from the chunks of a streamed body.
//!
//! Chunks are appended to a text buffer. Each blank line (`"\n\n"`) closes one
//! frame; a frame that starts with `"data: "` carries a payload, and the
//! payload `"[DONE]"` ends the stream. Frames without that prefix are ignored.
//! A chunk that is not valid UTF-8 on its own is dropped whole: a code point
//! split across two chunks is not reassembled.
use vstd::prelude::*;
use vstd::utf8::{decode_utf8, valid_utf8};
use crate::error::GptError;
use crate::models::GptResponse;

verus! {

/// The prefix of a data frame.
pub open spec fn data_prefix() -> Seq<char> {
    seq!['d', 'a', 't', 'a', ':', ' ']
}

/// The payload that ends a stream.
pub open spec fn done_marker() -> Seq<char> {
    seq!['[', 'D', 'O', 'N', 'E', ']']
}

pub open spec fn has_prefix(s: Seq<char>, p: Seq<char>) -> bool {
    p.len() <= s.len() && s.subrange(0, p.len() as int) == p
}

pub open spec fn is_data_frame(frame: Seq<char>) -> bool {
    has_prefix(frame, data_prefix())
}

/// What follows the `"data: "` prefix.
pub open spec fn payload_of(frame: Seq<char>) -> Seq<char> {
    frame.subrange(data_prefix().len() as int, frame.len() as int)
}

/// The first position at or after `i` where a blank line `"\n\n"` starts.
pub open spec fn find_terminator(s: Seq<char>, i: int) -> Option<int>
    decreases s.len() - i,
{
    if i < 0 || i + 1 >= s.len() {
        None
    } else if s[i] == '\n' && s[i + 1] == '\n' {
        Some(i)
    } else {
        find_terminator(s, i + 1)
    }
}

/// Splits the complete frames off the front of `s`: the payloads of the data
/// frames in order, what is left after the last complete frame, and whether
/// the end marker was met (frames after it are not read).
pub open spec fn decode_frames(s: Seq<char>) -> (Seq<Seq<char>>, Seq<char>, bool)
    decreases s.len(),
{
    match find_terminator(s, 0) {
        None => (Seq::empty(), s, false),
        Some(p) => if 0 <= p && p + 2 <= s.len() {
            let frame = s.subrange(0, p);
            let tail = s.subrange(p + 2, s.len() as int);
            if is_data_frame(frame) && payload_of(frame) == done_marker() {
                (Seq::empty(), tail, true)
            } else {
                let rest = decode_frames(tail);
                if is_data_frame(frame) {
                    (seq![payload_of(frame)] + rest.0, rest.1, rest.2)
                } else {
                    rest
                }
            }
        } else {
            (Seq::empty(), s, false)
        },
    }
}

proof fn lemma_find_bounds(s: Seq<char>, i: int)
    requires
        find_terminator(s, i) is Some,
    ensures
        0 <= i <= find_terminator(s, i)->Some_0,
        find_terminator(s, i)->Some_0 + 1 < s.len(),
    decreases s.len() - i,
{
    if !(s[i] == '\n' && s[i + 1] == '\n') {
        lemma_find_bounds(s, i + 1);
    }
}

proof fn lemma_find_extend(a: Seq<char>, b: Seq<char>, i: int)
    requires
        find_terminator(a, i) is Some,
    ensures
        find_terminator(a + b, i) == find_terminator(a, i),
    decreases a.len() - i,
{
    assert((a + b)[i] == a[i] && (a + b)[i + 1] == a[i + 1]);
    if !(a[i] == '\n' && a[i + 1] == '\n') {
        lemma_find_extend(a, b, i + 1);
    }
}

/// Where the body is cut into chunks does not matter: decoding `a` and then
/// the leftover of `a` followed by `b` yields the same payloads, in the same
/// order, as decoding `a + b` at once, the same leftover and the same end. A
/// blank line split across the cut is still found. If `a` already held the
/// end marker, the payloads before it are all that `a + b` yields.
pub proof fn lemma_decode_split(a: Seq<char>, b: Seq<char>)
    ensures
        ({
            let first = decode_frames(a);
            let second = decode_frames(first.1 + b);
            let whole = decode_frames(a + b);
            if first.2 {
                whole.0 == first.0 && whole.2
            } else {
                whole.0 == first.0 + second.0 && whole.1 == second.1 && whole.2 == second.2
            }
        }),
    decreases a.len(),
{
    match find_terminator(a, 0) {
        None => {
            assert(Seq::<Seq<char>>::empty() + decode_frames(a + b).0 =~= decode_frames(a + b).0);
        },
        Some(p) => {
            lemma_find_bounds(a, 0);
            lemma_find_extend(a, b, 0);
            let ab = a + b;
            assert(ab.subrange(0, p) =~= a.subrange(0, p));
            let tail = a.subrange(p + 2, a.len() as int);
            assert(ab.subrange(p + 2, ab.len() as int) =~= tail + b);
            let frame = a.subrange(0, p);
            if !(is_data_frame(frame) && payload_of(frame) == done_marker()) {
                lemma_decode_split(tail, b);
                let rest = decode_frames(tail);
                let second = decode_frames(rest.1 + b);
                if is_data_frame(frame) {
                    assert(seq![payload_of(frame)] + (rest.0 + second.0) =~= (seq![
                        payload_of(frame),
                    ] + rest.0) + second.0);
                }
            }
        },
    }
}

/// The text of one data frame carrying `t`.
pub open spec fn data_frame(t: Seq<char>) -> Seq<char> {
    data_prefix() + t + seq!['\n', '\n']
}

pub open spec fn no_newline(t: Seq<char>) -> bool {
    forall|j: int| 0 <= j < t.len() ==> t[j] != '\n'
}

proof fn lemma_find_at(s: Seq<char>, i: int, k: int)
    requires
        0 <= i <= k,
        k + 1 < s.len(),
        s[k] == '\n',
        s[k + 1] == '\n',
        forall|j: int| i <= j < k ==> s[j] != '\n',
    ensures
        find_terminator(s, i) == Some(k),
    decreases k - i,
{
    if i < k {
        lemma_find_at(s, i + 1, k);
    }
}

/// A data frame at the front of the text is decoded on its own: its payload
/// comes first, then whatever the rest of the text yields; the end marker
/// stops the decoding.
pub proof fn lemma_data_frame_first(t: Seq<char>, rest: Seq<char>)
    requires
        no_newline(t),
    ensures
        ({
            let d = decode_frames(data_frame(t) + rest);
            let r = decode_frames(rest);
            if t == done_marker() {
                d.0 == Seq::<Seq<char>>::empty() && d.1 == rest && d.2
            } else {
                d.0 == seq![t] + r.0 && d.1 == r.1 && d.2 == r.2
            }
        }),
{
    let s = data_frame(t) + rest;
    let k: int = 6 + t.len() as int;
    assert forall|j: int| 0 <= j < k implies s[j] != '\n' by {
        if j >= 6 {
            assert(s[j] == t[j - 6]);
        }
    }
    lemma_find_at(s, 0, k);
    assert(s.subrange(0, k) =~= data_prefix() + t);
    assert((data_prefix() + t).subrange(0, 6) =~= data_prefix());
    assert(payload_of(data_prefix() + t) =~= t);
    assert(s.subrange(k + 2, s.len() as int) =~= rest);
}

/// Two data frames in a row yield their two payloads, in the order in which
/// they were received, neither merged nor reordered.
pub proof fn lemma_frames_in_order(a: Seq<char>, b: Seq<char>)
    requires
        no_newline(a),
        no_newline(b),
        a != done_marker(),
        b != done_marker(),
    ensures
        decode_frames(data_frame(a) + data_frame(b)) == (seq![a, b], Seq::<char>::empty(), false),
{
    lemma_data_frame_first(a, data_frame(b));
    lemma_data_frame_first(b, Seq::empty());
    assert(data_frame(b) + Seq::<char>::empty() =~= data_frame(b));
    assert(seq![a] + (seq![b] + Seq::<Seq<char>>::empty()) =~= seq![a, b]);
}

pub open spec fn texts(v: Seq<String>) -> Seq<Seq<char>> {
    v.map_values(|s: String| s@)
}

/// Relies on `String::from_utf8`: `Some` exactly for valid UTF-8, holding the
/// characters that the bytes encode.
#[verifier::external_body]
fn decode_chunk(bytes: &[u8]) -> (r: Option<String>)
    ensures
        r is Some <==> valid_utf8(bytes@),
        r matches Some(s) ==> s@ == decode_utf8(bytes@),
{
    String::from_utf8(bytes.to_vec()).ok()
}

/// Relies on `str::chars`: the characters of `s`, in order.
#[verifier::external_body]
fn chars_of(s: &str) -> (r: Vec<char>)
    ensures
        r@ == s@,
{
    s.chars().collect()
}

/// Relies on `FromIterator<char> for String`: the string of these characters.
#[verifier::external_body]
fn string_of(cs: &[char]) -> (r: String)
    ensures
        r@ == cs@,
{
    cs.iter().collect()
}

/// The characters of `v` from `lo` up to `hi`.
fn copy_range(v: &Vec<char>, lo: usize, hi: usize) -> (r: Vec<char>)
    requires
        lo <= hi <= v.len(),
    ensures
        r@ == v@.subrange(lo as int, hi as int),
{
    let mut r: Vec<char> = Vec::new();
    let mut i: usize = lo;
    while i < hi
        invariant
            lo <= i <= hi <= v.len(),
            r@ == v@.subrange(lo as int, i as int),
        decreases hi - i,
    {
        r.push(v[i]);
        i += 1;
    }
    r
}

/// Whether `s` starts with `p`.
fn starts_with(s: &Vec<char>, p: &Vec<char>) -> (r: bool)
    ensures
        r == has_prefix(s@, p@),
{
    if p.len() > s.len() {
        return false;
    }
    let mut i: usize = 0;
    while i < p.len()
        invariant
            p.len() <= s.len(),
            i <= p.len(),
            forall|j: int| 0 <= j < i ==> s@[j] == p@[j],
        decreases p.len() - i,
    {
        if s[i] != p[i] {
            assert(s@.subrange(0, p@.len() as int)[i as int] != p@[i as int]);
            return false;
        }
        i += 1;
    }
    assert(s@.subrange(0, p@.len() as int) =~= p@);
    true
}

/// The first position where a blank line starts, if there is one.
fn find_frame_end(buf: &Vec<char>) -> (r: Option<usize>)
    ensures
        r matches Some(p) ==> find_terminator(buf@, 0) == Some(p as int) && p + 1 < buf@.len(),
        r is None ==> find_terminator(buf@, 0) is None,
{
    let n = buf.len();
    if n < 2 {
        return None;
    }
    let mut i: usize = 0;
    while i < n - 1
        invariant
            n == buf@.len(),
            n >= 2,
            i <= n - 1,
            find_terminator(buf@, 0) == find_terminator(buf@, i as int),
        decreases n - i,
    {
        if buf[i] == '\n' && buf[i + 1] == '\n' {
            return Some(i);
        }
        i += 1;
    }
    None
}

/// Reassembles frames across chunks; once the end marker is met, or the
/// transport has failed, it is done and takes nothing more.
pub struct StreamDecoder {
    buffer: Vec<char>,
    done: bool,
}

impl StreamDecoder {
    /// The text received and not yet closed by a blank line.
    pub closed spec fn pending(&self) -> Seq<char> {
        self.buffer@
    }

    pub closed spec fn is_finished(&self) -> bool {
        self.done
    }

    pub fn new() -> (r: Self)
        ensures
            r.pending() == Seq::<char>::empty(),
            !r.is_finished(),
    {
        StreamDecoder { buffer: Vec::new(), done: false }
    }

    pub fn is_done(&self) -> (r: bool)
        ensures
            r == self.is_finished(),
    {
        self.done
    }

    /// Takes one chunk of the body and returns, in order, the payloads of the
    /// data frames that it completes. The end marker itself is not returned.
    pub fn push_chunk(&mut self, chunk: &[u8]) -> (out: Vec<String>)
        ensures
            old(self).is_finished() || !valid_utf8(chunk@) ==> {
                &&& out@.len() == 0
                &&& final(self).pending() == old(self).pending()
                &&& final(self).is_finished() == old(self).is_finished()
            },
            !old(self).is_finished() && valid_utf8(chunk@) ==> {
                let d = decode_frames(old(self).pending() + decode_utf8(chunk@));
                &&& texts(out@) == d.0
                &&& final(self).pending() == d.1
                &&& final(self).is_finished() == d.2
            },
    {
        if self.done {
            return Vec::new();
        }
        let text = match decode_chunk(chunk) {
            Some(t) => t,
            None => return Vec::new(),
        };
        let cs = chars_of(text.as_str());
        let ghost start = self.buffer@;
        let mut i: usize = 0;
        while i < cs.len()
            invariant
                i <= cs.len(),
                self.buffer@ == start + cs@.subrange(0, i as int),
                !self.done,
            decreases cs.len() - i,
        {
            self.buffer.push(cs[i]);
            i += 1;
            assert(self.buffer@ =~= start + cs@.subrange(0, i as int));
        }
        assert(cs@.subrange(0, cs@.len() as int) =~= cs@);
        self.drain_frames()
    }

    /// Takes every complete frame off the front of the buffer.
    fn drain_frames(&mut self) -> (out: Vec<String>)
        requires
            !old(self).done,
        ensures
            ({
                let d = decode_frames(old(self).buffer@);
                &&& texts(out@) == d.0
                &&& final(self).buffer@ == d.1
                &&& final(self).done == d.2
            }),
    {
        let ghost d0 = decode_frames(self.buffer@);
        let prefix = vec!['d', 'a', 't', 'a', ':', ' '];
        let marker = vec!['[', 'D', 'O', 'N', 'E', ']'];
        assert(prefix@ =~= data_prefix());
        assert(marker@ =~= done_marker());
        let mut out: Vec<String> = Vec::new();
        loop
            invariant
                prefix@ == data_prefix(),
                marker@ == done_marker(),
                !self.done ==> {
                    let d = decode_frames(self.buffer@);
                    &&& texts(out@) + d.0 == d0.0
                    &&& d.1 == d0.1
                    &&& d.2 == d0.2
                },
                self.done ==> texts(out@) == d0.0 && self.buffer@ == d0.1 && d0.2,
            ensures
                texts(out@) == d0.0,
                self.buffer@ == d0.1,
                self.done == d0.2,
            decreases self.buffer@.len(), (if self.done { 0int } else { 1int }),
        {
            if self.done {
                break;
            }
            match find_frame_end(&self.buffer) {
                None => {
                    assert(texts(out@) + Seq::<Seq<char>>::empty() =~= texts(out@));
                    break;
                },
                Some(p) => {
                    let ghost s = self.buffer@;
                    let frame = copy_range(&self.buffer, 0, p);
                    let n = self.buffer.len();
                    self.buffer = copy_range(&self.buffer, p + 2, n);
                    if starts_with(&frame, &prefix) {
                        let payload = copy_range(&frame, 6, frame.len());
                        if payload.len() == 6 && starts_with(&payload, &marker) {
                            assert(payload@ =~= done_marker());
                            self.done = true;
                            assert(texts(out@) + Seq::<Seq<char>>::empty() =~= texts(out@));
                        } else {
                            proof {
                                if payload@ == done_marker() {
                                    assert(payload@.subrange(0, 6) =~= payload@);
                                }
                            }
                            let ghost before = texts(out@);
                            out.push(string_of(payload.as_slice()));
                            assert(texts(out@) =~= before.push(payload@));
                            let ghost rest = decode_frames(self.buffer@);
                            assert(before + (seq![payload@] + rest.0) =~= texts(out@) + rest.0);
                        }
                    }
                },
            }
        }
        out
    }

    /// The transport failed while reading the body. The failure is reported
    /// once, unless the stream had already ended; either way it is now done.
    pub fn fail(&mut self, detail: String) -> (r: Option<GptError>)
        ensures
            final(self).is_finished(),
            final(self).pending() == old(self).pending(),
            old(self).is_finished() ==> r is None,
            !old(self).is_finished() ==> r == Some(GptError::RequestError(detail)),
    {
        if self.done {
            None
        } else {
            self.done = true;
            Some(GptError::RequestError(detail))
        }
    }
}

/// The text that one decoded payload hands to the consumer: its first choice's
/// delta content when that is present and not empty.
pub open spec fn delta_text(r: GptResponse) -> Option<Seq<char>> {
    if r.choices@.len() > 0 {
        match r.choices@[0].delta {
            Some(d) => match d.content {
                Some(c) => if c@.len() > 0 {
                    Some(c@)
                } else {
                    None
                },
                None => None,
            },
            None => None,
        }
    } else {
        None
    }
}

/// What the consumer receives for one payload, given how it decoded as JSON:
/// a parse error for a payload that did not decode, a fragment for a non-empty
/// delta, and nothing otherwise.
pub fn fragment_of(decoded: Result<GptResponse, String>) -> (r: Option<Result<String, GptError>>)
    ensures
        decoded matches Err(e) ==> r == Some(Err::<String, GptError>(GptError::ParseError(e))),
        decoded matches Ok(resp) ==> match delta_text(resp) {
            Some(t) => r matches Some(Ok(s)) && s@ == t,
            None => r is None,
        },
{
    match decoded {
        Err(e) => Some(Err(GptError::ParseError(e))),
        Ok(resp) => {
            if resp.choices.len() > 0 {
                match &resp.choices[0].delta {
                    Some(d) => match &d.content {
                        Some(c) => if c.as_str().is_empty() {
                            None
                        } else {
                            Some(Ok(c.clone()))
                        },
                        None => None,
                    },
                    None => None,
                }
            } else {
                None
            }
        },
    }
}

} // verus!
