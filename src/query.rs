//! Request targets: a path of escaped segments and an ordered query string.

use vstd::prelude::*;
use vstd::string::StringExecFns;
use vstd::utf8::{encode_utf8, is_ascii_chars, is_ascii_chars_encode_utf8};

verus! {

/// Bytes that stand for themselves in a path segment or a query component.
pub open spec fn unreserved(b: u8) -> bool {
    (0x41 <= b <= 0x5a) || (0x61 <= b <= 0x7a) || (0x30 <= b <= 0x39) || b == 0x2d || b == 0x2e
        || b == 0x5f || b == 0x7e
}

/// The upper-case hexadecimal digit for `d < 16`.
pub open spec fn hex_digit(d: u8) -> char {
    if d < 10 {
        ((0x30 + d) as u8) as char
    } else {
        ((0x41 + d - 10) as u8) as char
    }
}

/// How one byte is written: itself if unreserved, else `%` and two hex digits.
pub open spec fn escape_byte(b: u8) -> Seq<char> {
    if unreserved(b) {
        seq![b as char]
    } else {
        seq!['%', hex_digit(b / 16), hex_digit(b % 16)]
    }
}

/// The percent-escaped form of a byte string.
pub open spec fn escaped(bs: Seq<u8>) -> Seq<char>
    decreases bs.len(),
{
    if bs.len() == 0 {
        Seq::empty()
    } else {
        escaped(bs.drop_last()) + escape_byte(bs.last())
    }
}

/// The escaped UTF-8 form of a text.
pub open spec fn escaped_text(s: Seq<char>) -> Seq<char> {
    escaped(encode_utf8(s))
}

/// A path segment as appended to a path.
pub open spec fn route(segment: Seq<char>) -> Seq<char> {
    seq!['/'] + escaped_text(segment)
}

/// A query parameter as appended to a query string; the first one opens it.
pub open spec fn param(first: bool, key: Seq<char>, value: Seq<char>) -> Seq<char> {
    seq![if first { '?' } else { '&' }] + escaped_text(key) + seq!['='] + escaped_text(value)
}

/// Relies on `String::push`: the character is appended at the end.
#[verifier::external_body]
fn push_char(s: &mut String, c: char)
    ensures
        final(s)@ == old(s)@.push(c),
{
    s.push(c)
}

fn hex(d: u8) -> (r: char)
    requires
        d < 16,
    ensures
        r == hex_digit(d),
{
    if d < 10 {
        (0x30 + d) as char
    } else {
        (0x41 + d - 10) as char
    }
}

/// Appends the escaped UTF-8 form of `s` to `out`.
pub fn push_escaped(out: &mut String, s: &str)
    ensures
        final(out)@ == old(out)@ + escaped_text(s@),
{
    let bs = s.as_bytes();
    let ghost start = out@;
    let mut i: usize = 0;
    assert(bs@.take(0) =~= Seq::<u8>::empty());
    assert(start + Seq::<char>::empty() =~= start);
    while i < bs.len()
        invariant
            bs@ == encode_utf8(s@),
            i <= bs@.len(),
            out@ == start + escaped(bs@.take(i as int)),
        decreases bs@.len() - i,
    {
        let b = bs[i];
        let ghost before = out@;
        if (0x41 <= b && b <= 0x5a) || (0x61 <= b && b <= 0x7a) || (0x30 <= b && b <= 0x39)
            || b == 0x2d || b == 0x2e || b == 0x5f || b == 0x7e {
            push_char(out, b as char);
        } else {
            push_char(out, '%');
            push_char(out, hex(b / 16));
            push_char(out, hex(b % 16));
        }
        proof {
            assert(bs@.take(i + 1).drop_last() =~= bs@.take(i as int));
            assert(out@ =~= before + escape_byte(b));
            assert(escaped(bs@.take(i + 1)) == escaped(bs@.take(i as int)) + escape_byte(b));
            assert(out@ =~= start + escaped(bs@.take(i + 1)));
        }
        i = i + 1;
    }
    assert(bs@.take(bs@.len() as int) =~= bs@);
}

/// A request target under construction: a path and a query string.
pub struct QueryBuilder {
    pub path: String,
    pub query: String,
}

impl QueryBuilder {
    /// A target at `origin`, with no query yet.
    pub fn new(origin: &str) -> (r: QueryBuilder)
        ensures
            r.path@ == origin@,
            r.query@ == Seq::<char>::empty(),
    {
        QueryBuilder { path: String::from_str(origin), query: String::new() }
    }

    /// Appends `/` and the escaped segment to the path.
    pub fn add_route(&mut self, segment: &str)
        ensures
            final(self).path@ == old(self).path@ + route(segment@),
            final(self).query@ == old(self).query@,
    {
        push_char(&mut self.path, '/');
        push_escaped(&mut self.path, segment);
        assert(self.path@ =~= old(self).path@ + route(segment@));
    }

    /// Appends `key=value`, escaped, to the query: after `?` for the first
    /// parameter and after `&` for the others.
    pub fn add_param(&mut self, key: &str, value: &str)
        ensures
            final(self).path@ == old(self).path@,
            final(self).query@ == old(self).query@ + param(old(self).query@.len() == 0, key@, value@),
    {
        let first = self.query.as_str().unicode_len() == 0;
        push_char(&mut self.query, if first { '?' } else { '&' });
        push_escaped(&mut self.query, key);
        push_char(&mut self.query, '=');
        push_escaped(&mut self.query, value);
        assert(self.query@ =~= old(self).query@ + param(first, key@, value@));
    }

    /// The complete request target.
    pub fn build(&self) -> (r: String)
        ensures
            r@ == self.path@ + self.query@,
    {
        self.path.clone().concat(self.query.as_str())
    }
}

/// Characters that stand for themselves when escaped.
pub open spec fn plain_char(c: char) -> bool {
    ('A' <= c <= 'Z') || ('a' <= c <= 'z') || ('0' <= c <= '9') || c == '-' || c == '.' || c
        == '_' || c == '~'
}

/// A text made of such characters only.
pub open spec fn plain(s: Seq<char>) -> bool {
    forall|i: int| 0 <= i < s.len() ==> plain_char(#[trigger] s[i])
}

proof fn lemma_plain_bytes_unescaped(bs: Seq<u8>, s: Seq<char>)
    requires
        plain(s),
        bs.len() == s.len(),
        forall|i: int| 0 <= i < s.len() ==> bs[i] == #[trigger] s[i] as u8,
    ensures
        escaped(bs) == s,
    decreases bs.len(),
{
    if bs.len() > 0 {
        let n = bs.len() - 1;
        lemma_plain_bytes_unescaped(bs.drop_last(), s.drop_last());
        let c = s[n];
        assert(plain_char(c));
        assert(bs[n] == c as u8);
        assert(unreserved(bs[n]));
        assert((c as u8) as char == c);
        assert(escaped(bs) =~= s);
    }
}

/// Escaping leaves a plain text as it is.
pub proof fn lemma_plain_unescaped(s: Seq<char>)
    requires
        plain(s),
    ensures
        escaped_text(s) == s,
{
    assert(is_ascii_chars(s)) by {
        assert forall|i: int| 0 <= i < s.len() implies '\0' <= #[trigger] s[i] <= '\u{7f}' by {
            assert(plain_char(s[i]));
        }
    }
    is_ascii_chars_encode_utf8(s);
    lemma_plain_bytes_unescaped(encode_utf8(s), s);
}

} // verus!
