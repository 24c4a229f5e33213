use vstd::prelude::*;

verus! {

/// A record boundary: line feed or carriage return.
pub open spec fn is_delim(b: u8) -> bool {
    b == 10u8 || b == 13u8
}

/// The bytes after the last delimiter of `s` (all of `s` if it holds none).
pub open spec fn tail(s: Seq<u8>) -> Seq<u8>
    decreases s.len(),
{
    if s.len() == 0 {
        s
    } else if is_delim(s.last()) {
        Seq::empty()
    } else {
        tail(s.drop_last()).push(s.last())
    }
}

/// What `String::from_utf8_lossy` makes of a byte sequence.
pub uninterp spec fn lossy_text(b: Seq<u8>) -> Seq<char>;

pub open spec fn is_ascii_bytes(b: Seq<u8>) -> bool {
    forall|i: int| 0 <= i < b.len() ==> #[trigger] b[i] < 128u8
}

/// ASCII bytes read as the characters they encode.
pub open spec fn ascii_text(b: Seq<u8>) -> Seq<char> {
    b.map_values(|x: u8| x as char)
}

/// Bytes decoded permissively: ASCII as itself, anything else as
/// `String::from_utf8_lossy` decodes it.
pub open spec fn decoded(b: Seq<u8>) -> Seq<char> {
    if is_ascii_bytes(b) {
        ascii_text(b)
    } else {
        lossy_text(b)
    }
}

/// A character with the Unicode `White_Space` property.
pub open spec fn is_white(c: char) -> bool {
    ('\u{9}' <= c && c <= '\u{d}') || c == ' ' || c == '\u{85}' || c == '\u{a0}' || c
        == '\u{1680}' || ('\u{2000}' <= c && c <= '\u{200a}') || c == '\u{2028}' || c
        == '\u{2029}' || c == '\u{202f}' || c == '\u{205f}' || c == '\u{3000}'
}

/// `s` without its leading whitespace.
pub open spec fn trim_start(s: Seq<char>) -> Seq<char>
    decreases s.len(),
{
    if s.len() > 0 && is_white(s[0]) {
        trim_start(s.drop_first())
    } else {
        s
    }
}

/// `s` without its trailing whitespace.
pub open spec fn trim_end(s: Seq<char>) -> Seq<char>
    decreases s.len(),
{
    if s.len() > 0 && is_white(s.last()) {
        trim_end(s.drop_last())
    } else {
        s
    }
}

/// `s` without leading and trailing whitespace.
pub open spec fn trimmed(s: Seq<char>) -> Seq<char> {
    trim_end(trim_start(s))
}

/// The text of one delimited segment: decoded permissively, then trimmed.
pub open spec fn line_text(b: Seq<u8>) -> Seq<char> {
    trimmed(decoded(b))
}

/// The non-empty records completed within `s`, in order: each segment that a
/// delimiter ends, as text, leaving out those that trim to nothing.
pub open spec fn records(s: Seq<u8>) -> Seq<Seq<char>>
    decreases s.len(),
{
    if s.len() == 0 {
        Seq::empty()
    } else {
        let p = s.drop_last();
        if is_delim(s.last()) && line_text(tail(p)).len() > 0 {
            records(p).push(line_text(tail(p)))
        } else {
            records(p)
        }
    }
}

pub open spec fn no_delim(s: Seq<u8>) -> bool {
    forall|i: int| 0 <= i < s.len() ==> !is_delim(#[trigger] s[i])
}

/// The texts of a sequence of strings.
pub open spec fn texts(v: Seq<String>) -> Seq<Seq<char>> {
    v.map_values(|s: String| s@)
}

/// All fragments joined in order.
pub open spec fn joined(frags: Seq<Seq<u8>>) -> Seq<u8>
    decreases frags.len(),
{
    if frags.len() == 0 {
        Seq::empty()
    } else {
        joined(frags.drop_last()) + frags.last()
    }
}

/// The records yielded when the fragments are fed one after another to a fresh
/// reassembler, draining after each: a drain sees what the earlier fragments
/// left behind followed by the new fragment.
pub open spec fn fed_records(frags: Seq<Seq<u8>>) -> Seq<Seq<char>>
    decreases frags.len(),
{
    if frags.len() == 0 {
        Seq::empty()
    } else {
        let prev = frags.drop_last();
        fed_records(prev) + records(tail(joined(prev)) + frags.last())
    }
}

/// Relies on `String::from_utf8_lossy`: invalid sequences become U+FFFD, the
/// result depends on the bytes alone, and ASCII (valid UTF-8) is kept as is.
#[verifier::external_body]
fn decode_lossy(b: &[u8]) -> (r: String)
    ensures
        is_ascii_bytes(b@) ==> r@ == ascii_text(b@),
        !is_ascii_bytes(b@) ==> r@ == lossy_text(b@),
{
    String::from_utf8_lossy(b).into_owned()
}

/// Relies on `str::trim`: leading and trailing characters with the Unicode
/// `White_Space` property removed.
#[verifier::external_body]
fn trim_text(s: &str) -> (r: String)
    ensures
        r@ == trimmed(s@),
{
    s.trim().to_string()
}

/// The trimmed text of one segment of bytes.
pub fn line_of(b: &[u8]) -> (r: String)
    ensures
        r@ == line_text(b@),
{
    let d = decode_lossy(b);
    trim_text(d.as_str())
}

proof fn lemma_tail_no_delim(s: Seq<u8>)
    ensures
        no_delim(tail(s)),
    decreases s.len(),
{
    if s.len() > 0 {
        lemma_tail_no_delim(s.drop_last());
        if !is_delim(s.last()) {
            let t = tail(s.drop_last());
            assert forall|i: int| 0 <= i < t.push(s.last()).len() implies !is_delim(
                #[trigger] t.push(s.last())[i],
            ) by {
                if i < t.len() {
                    assert(t.push(s.last())[i] == t[i]);
                }
            }
        }
    }
}

proof fn lemma_no_delim_clean(s: Seq<u8>)
    requires
        no_delim(s),
    ensures
        records(s) == Seq::<Seq<char>>::empty(),
        tail(s) == s,
    decreases s.len(),
{
    if s.len() > 0 {
        assert(!is_delim(s[s.len() - 1]));
        let p = s.drop_last();
        assert(no_delim(p)) by {
            assert forall|i: int| 0 <= i < p.len() implies !is_delim(#[trigger] p[i]) by {
                assert(p[i] == s[i]);
            }
        }
        lemma_no_delim_clean(p);
        assert(p.push(s.last()) =~= s);
    }
}

/// Splitting the input in two fragments anywhere changes nothing: the records
/// of `a + b` are those of `a`, then those of what `a` left behind followed by
/// `b`; and what is left behind is the same either way.
pub proof fn lemma_split_anywhere(a: Seq<u8>, b: Seq<u8>)
    ensures
        records(a + b) == records(a) + records(tail(a) + b),
        tail(a + b) == tail(tail(a) + b),
    decreases b.len(),
{
    if b.len() == 0 {
        lemma_tail_no_delim(a);
        lemma_no_delim_clean(tail(a));
        assert(a + b =~= a);
        assert(tail(a) + b =~= tail(a));
        assert(records(a) + Seq::<Seq<char>>::empty() =~= records(a));
    } else {
        let b0 = b.drop_last();
        lemma_split_anywhere(a, b0);
        assert((a + b).drop_last() =~= a + b0);
        assert((a + b).last() == b.last());
        assert((tail(a) + b).drop_last() =~= tail(a) + b0);
        assert((tail(a) + b).last() == b.last());
        let l = line_text(tail(a + b0));
        if is_delim(b.last()) && l.len() > 0 {
            assert(records(a) + records(tail(a) + b0).push(l) =~= (records(a) + records(
                tail(a) + b0,
            )).push(l));
        }
    }
}

/// Every fragmentation of the same bytes yields the same ordered records: those
/// of the bytes taken whole.
pub proof fn lemma_fragmentation(frags: Seq<Seq<u8>>)
    ensures
        fed_records(frags) == records(joined(frags)),
    decreases frags.len(),
{
    if frags.len() > 0 {
        let prev = frags.drop_last();
        lemma_fragmentation(prev);
        lemma_split_anywhere(joined(prev), frags.last());
    }
}

proof fn lemma_all_white_trims_away(s: Seq<char>)
    requires
        forall|i: int| 0 <= i < s.len() ==> is_white(#[trigger] s[i]),
    ensures
        trim_start(s).len() == 0,
    decreases s.len(),
{
    if s.len() > 0 {
        let d = s.drop_first();
        assert forall|i: int| 0 <= i < d.len() implies is_white(#[trigger] d[i]) by {
            assert(d[i] == s[i + 1]);
        }
        lemma_all_white_trims_away(d);
    }
}

/// A segment of spaces and tabs (or other ASCII whitespace) yields no record:
/// its delimiter leaves the records as they were.
pub proof fn lemma_blank_segment_dropped(s: Seq<u8>, d: u8)
    requires
        is_delim(d),
        forall|i: int|
            0 <= i < tail(s).len() ==> (#[trigger] tail(s)[i] == 32u8 || (9u8 <= tail(s)[i]
                && tail(s)[i] <= 13u8)),
    ensures
        records(s.push(d)) == records(s),
        tail(s.push(d)) == Seq::<u8>::empty(),
{
    let t = tail(s);
    assert(is_ascii_bytes(t));
    let c = ascii_text(t);
    assert forall|i: int| 0 <= i < c.len() implies is_white(#[trigger] c[i]) by {
        assert(c[i] == t[i] as char);
    }
    lemma_all_white_trims_away(c);
    assert(s.push(d).drop_last() =~= s);
}

/// A delimiter written as `\r`, `\n` or `\r\n` ends the record before it exactly
/// once, and the input after it is read the same way in all three cases.
pub proof fn lemma_line_endings(s: Seq<u8>, rest: Seq<u8>)
    ensures
        records(s + seq![13u8, 10u8] + rest) == records(s + seq![10u8] + rest),
        records(s + seq![13u8] + rest) == records(s + seq![10u8] + rest),
        records(s + seq![10u8]) == (if line_text(tail(s)).len() > 0 {
            records(s).push(line_text(tail(s)))
        } else {
            records(s)
        }),
{
    let crlf = s + seq![13u8, 10u8];
    let cr = s + seq![13u8];
    let lf = s + seq![10u8];
    assert(cr.drop_last() =~= s);
    assert(lf.drop_last() =~= s);
    assert(crlf.drop_last() =~= cr);
    assert(tail(cr) =~= Seq::<u8>::empty());
    assert(tail(lf) =~= Seq::<u8>::empty());
    assert(tail(crlf) =~= Seq::<u8>::empty());
    lemma_split_anywhere(crlf, rest);
    lemma_split_anywhere(cr, rest);
    lemma_split_anywhere(lf, rest);
}

/// Turns byte fragments into trimmed, non-empty records ended by `\n` or `\r`,
/// keeping an unterminated tail for the next fragment.
pub struct FrameReassembler {
    buf: Vec<u8>,
}

impl View for FrameReassembler {
    type V = Seq<u8>;

    closed spec fn view(&self) -> Seq<u8> {
        self.buf@
    }
}

impl FrameReassembler {
    pub fn new() -> (r: FrameReassembler)
        ensures
            r@ == Seq::<u8>::empty(),
    {
        FrameReassembler { buf: Vec::new() }
    }

    /// Appends a fragment; an empty one changes nothing.
    pub fn feed(&mut self, bytes: &[u8])
        ensures
            final(self)@ == old(self)@ + bytes@,
    {
        let mut i: usize = 0;
        while i < bytes.len()
            invariant
                i <= bytes@.len(),
                self@ == old(self)@ + bytes@.take(i as int),
            decreases bytes@.len() - i,
        {
            self.buf.push(bytes[i]);
            assert(bytes@.take(i as int + 1) =~= bytes@.take(i as int).push(bytes@[i as int]));
            i = i + 1;
        }
        assert(bytes@.take(i as int) =~= bytes@);
    }

    /// Takes out, in order, every record that a delimiter completes; what
    /// follows the last delimiter stays.
    pub fn drain_complete(&mut self) -> (out: Vec<String>)
        ensures
            texts(out@) == records(old(self)@),
            final(self)@ == tail(old(self)@),
            no_delim(final(self)@),
    {
        let n = self.buf.len();
        let mut out: Vec<String> = Vec::new();
        let mut cur: Vec<u8> = Vec::new();
        let mut j: usize = 0;
        while j < n
            invariant
                n == self.buf@.len(),
                self@ == old(self)@,
                j <= n,
                cur@ == tail(self.buf@.take(j as int)),
                texts(out@) == records(self.buf@.take(j as int)),
            decreases n - j,
        {
            let b = self.buf[j];
            let ghost pre = self.buf@.take(j as int);
            assert(self.buf@.take(j as int + 1) =~= pre.push(b));
            assert(self.buf@.take(j as int + 1).drop_last() =~= pre);
            if b == 10u8 || b == 13u8 {
                let line = line_of(cur.as_slice());
                if !line.as_str().is_empty() {
                    out.push(line);
                    assert(texts(out@) =~= records(pre).push(line_text(tail(pre))));
                }
                cur = Vec::new();
            } else {
                cur.push(b);
            }
            j = j + 1;
        }
        assert(self.buf@.take(n as int) =~= self.buf@);
        proof {
            lemma_tail_no_delim(self.buf@);
        }
        self.buf = cur;
        out
    }

    /// Empties the buffer and hands back its trimmed text, if any is left.
    pub fn take_remainder(&mut self) -> (r: Option<String>)
        ensures
            final(self)@ == Seq::<u8>::empty(),
            match r {
                Some(t) => t@ == line_text(old(self)@) && t@.len() > 0,
                None => line_text(old(self)@).len() == 0,
            },
    {
        let line = line_of(self.buf.as_slice());
        self.buf = Vec::new();
        if !line.as_str().is_empty() {
            Some(line)
        } else {
            None
        }
    }
}

} // verus!
