//! Line codec and query detector.
//!
//! A command travels to the instrument as one ASCII line terminated by
//! `"\r\n"`; a reply comes back the same way. A command is a query (a reply
//! is expected) exactly when its text contains a `'?'` character.

use vstd::prelude::*;
use vstd::string::StrSliceExecFns;
use vstd::string::StringExecFns;

verus! {

/// A command expects a reply exactly when it contains a question mark.
pub open spec fn is_query_spec(s: Seq<char>) -> bool {
    s.contains('?')
}

/// The framed form of a command: the text followed by `"\r\n"`.
pub open spec fn frame_spec(s: Seq<char>) -> Seq<char> {
    s + "\r\n"@
}

/// A reply line with every trailing `"\r\n"` removed.
pub open spec fn trim_crlf_spec(s: Seq<char>) -> Seq<char>
    decreases s.len(),
{
    if s.len() >= 2 && s[s.len() - 2] == '\r' && s[s.len() - 1] == '\n' {
        trim_crlf_spec(s.subrange(0, s.len() - 2))
    } else {
        s
    }
}

/// Decides whether `command` is a query, that is, whether a reply line must
/// be awaited after sending it.
pub fn is_query(command: &str) -> (b: bool)
    ensures
        b == is_query_spec(command@),
{
    let n = command.unicode_len();
    let mut i: usize = 0;
    while i < n
        invariant
            n == command@.len(),
            0 <= i <= n,
            forall|j: int| 0 <= j < i ==> command@[j] != '?',
        decreases n - i,
    {
        if command.get_char(i) == '?' {
            return true;
        }
        i = i + 1;
    }
    false
}

/// Frames a command as the line that goes out on the wire.
pub fn frame(command: &str) -> (line: String)
    ensures
        line@ == frame_spec(command@),
{
    let mut line = command.to_owned();
    line.append("\r\n");
    line
}

/// Trims every trailing `"\r\n"` from a reply line.
pub fn trim_reply(line: &str) -> (r: String)
    ensures
        r@ == trim_crlf_spec(line@),
{
    let mut end = line.unicode_len();
    proof {
        assert(line@.subrange(0, end as int) =~= line@);
    }
    while end >= 2 && line.get_char(end - 1) == '\n' && line.get_char(end - 2) == '\r'
        invariant
            0 <= end <= line@.len(),
            trim_crlf_spec(line@) == trim_crlf_spec(line@.subrange(0, end as int)),
        decreases end,
    {
        proof {
            let s = line@.subrange(0, end as int);
            assert(s[s.len() - 2] == '\r' && s[s.len() - 1] == '\n');
            assert(s.subrange(0, s.len() - 2) =~= line@.subrange(0, end - 2));
        }
        end = end - 2;
    }
    let kept = line.substring_char(0, end);
    proof {
        let s = line@.subrange(0, end as int);
        assert(!(s.len() >= 2 && s[s.len() - 2] == '\r' && s[s.len() - 1] == '\n'));
    }
    kept.to_owned()
}

/// Concatenating two pieces that are both free of a character keeps the
/// whole free of it.
pub proof fn lemma_append_no_char(a: Seq<char>, b: Seq<char>, c: char)
    requires
        !a.contains(c),
        !b.contains(c),
    ensures
        !(a + b).contains(c),
{
    assert forall|i: int| 0 <= i < (a + b).len() implies (a + b)[i] != c by {
        if i < a.len() {
            assert(a[i] != c);
        } else {
            assert(b[i - a.len()] != c);
        }
    }
    if (a + b).contains(c) {
        let i = choose|i: int| 0 <= i < (a + b).len() && (a + b)[i] == c;
        assert((a + b)[i] != c);
    }
}

/// Compares two string slices for equality of their text.
pub fn str_eq(a: &str, b: &str) -> (r: bool)
    ensures
        r == (a@ == b@),
{
    let sa = a.to_owned();
    let sb = b.to_owned();
    if sa == sb {
        proof {
            assert(a@ =~= b@);
        }
        true
    } else {
        false
    }
}

/// Joins two pieces of a command.
pub fn concat2(a: &str, b: &str) -> (r: String)
    ensures
        r@ == a@ + b@,
{
    let mut r = a.to_owned();
    r.append(b);
    r
}

/// Joins three pieces of a command.
pub fn concat3(a: &str, b: &str, c: &str) -> (r: String)
    ensures
        r@ == a@ + b@ + c@,
{
    let mut r = a.to_owned();
    r.append(b);
    r.append(c);
    r
}

/// Joins four pieces of a command.
pub fn concat4(a: &str, b: &str, c: &str, d: &str) -> (r: String)
    ensures
        r@ == a@ + b@ + c@ + d@,
{
    let mut r = a.to_owned();
    r.append(b);
    r.append(c);
    r.append(d);
    r
}

/// Joins six pieces of a command.
pub fn concat6(a: &str, b: &str, c: &str, d: &str, e: &str, f: &str) -> (r: String)
    ensures
        r@ == a@ + b@ + c@ + d@ + e@ + f@,
{
    let mut r = a.to_owned();
    r.append(b);
    r.append(c);
    r.append(d);
    r.append(e);
    r.append(f);
    r
}

/// Three question-mark-free pieces make a question-mark-free whole.
pub proof fn lemma_no_qm3(a: Seq<char>, b: Seq<char>, c: Seq<char>)
    requires
        !a.contains('?'),
        !b.contains('?'),
        !c.contains('?'),
    ensures
        !(a + b + c).contains('?'),
{
    lemma_append_no_char(a, b, '?');
    lemma_append_no_char(a + b, c, '?');
}

/// Four question-mark-free pieces make a question-mark-free whole.
pub proof fn lemma_no_qm4(a: Seq<char>, b: Seq<char>, c: Seq<char>, d: Seq<char>)
    requires
        !a.contains('?'),
        !b.contains('?'),
        !c.contains('?'),
        !d.contains('?'),
    ensures
        !(a + b + c + d).contains('?'),
{
    lemma_no_qm3(a, b, c);
    lemma_append_no_char(a + b + c, d, '?');
}

/// A character of the right-hand piece is a character of the whole.
pub proof fn lemma_append_contains_right(a: Seq<char>, b: Seq<char>, c: char)
    requires
        b.contains(c),
    ensures
        (a + b).contains(c),
{
    let i = choose|i: int| 0 <= i < b.len() && b[i] == c;
    assert((a + b)[a.len() + i] == c);
}

/// A character of the left-hand piece is a character of the whole.
pub proof fn lemma_append_contains_left(a: Seq<char>, b: Seq<char>, c: char)
    requires
        a.contains(c),
    ensures
        (a + b).contains(c),
{
    let i = choose|i: int| 0 <= i < a.len() && a[i] == c;
    assert((a + b)[i] == c);
}

} // verus!
