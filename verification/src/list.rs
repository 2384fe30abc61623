//! Delimited numeric lists.
//!
//! A buffered-data reply looks like `"{1.2,3.2,-1.2}"`: the samples are
//! comma-separated and the whole list may be wrapped in braces and carry
//! stray decoration characters (`'!'`, alphabetic markers) at either end.
//! This module strips the decoration and splits the list into its elements;
//! turning each element into a number is the caller's step.

use vstd::prelude::*;
use vstd::string::StrSliceExecFns;
use vstd::string::StringExecFns;

verus! {

/// The characters that may decorate the ends of a list reply without being
/// part of the data.
pub open spec fn is_decoration(c: char) -> bool {
    ||| c == '{'
    ||| c == '}'
    ||| c == '!'
    ||| 'a' <= c && c <= 'z'
    ||| 'A' <= c && c <= 'Z'
}

pub open spec fn trim_start_deco(s: Seq<char>) -> Seq<char>
    decreases s.len(),
{
    if s.len() > 0 && is_decoration(s.first()) {
        trim_start_deco(s.drop_first())
    } else {
        s
    }
}

pub open spec fn trim_end_deco(s: Seq<char>) -> Seq<char>
    decreases s.len(),
{
    if s.len() > 0 && is_decoration(s.last()) {
        trim_end_deco(s.drop_last())
    } else {
        s
    }
}

/// A list reply with the decoration stripped from both ends.
pub open spec fn strip_decorations_spec(s: Seq<char>) -> Seq<char> {
    trim_end_deco(trim_start_deco(s))
}

/// The comma-split of a text: the segments between commas, in order. An
/// empty text splits into one empty segment, like the standard splitter.
pub open spec fn split_commas(s: Seq<char>) -> Seq<Seq<char>>
    decreases s.len(),
{
    if s.len() == 0 {
        seq![Seq::<char>::empty()]
    } else if s.last() == ',' {
        split_commas(s.drop_last()).push(Seq::<char>::empty())
    } else {
        let r = split_commas(s.drop_last());
        r.update(r.len() - 1, r.last().push(s.last()))
    }
}

pub proof fn lemma_split_commas_len(s: Seq<char>)
    ensures
        split_commas(s).len() >= 1,
    decreases s.len(),
{
    if s.len() > 0 {
        lemma_split_commas_len(s.drop_last());
    }
}

fn exec_is_decoration(c: char) -> (r: bool)
    ensures
        r == is_decoration(c),
{
    c == '{' || c == '}' || c == '!' || ('a' <= c && c <= 'z') || ('A' <= c && c <= 'Z')
}

/// Strips the decoration characters from both ends of a list reply.
pub fn strip_decorations(s: &str) -> (r: String)
    ensures
        r@ == strip_decorations_spec(s@),
{
    let n = s.unicode_len();
    let mut lo: usize = 0;
    proof {
        assert(s@.subrange(0, n as int) =~= s@);
    }
    while lo < n && exec_is_decoration(s.get_char(lo))
        invariant
            n == s@.len(),
            0 <= lo <= n,
            trim_start_deco(s@) == trim_start_deco(s@.subrange(lo as int, n as int)),
        decreases n - lo,
    {
        proof {
            let t = s@.subrange(lo as int, n as int);
            assert(t.first() == s@[lo as int]);
            assert(t.drop_first() =~= s@.subrange(lo + 1, n as int));
        }
        lo = lo + 1;
    }
    proof {
        let t = s@.subrange(lo as int, n as int);
        assert(!(t.len() > 0 && is_decoration(t.first())));
        assert(trim_start_deco(s@) == t);
    }
    let mut hi: usize = n;
    while hi > lo && exec_is_decoration(s.get_char(hi - 1))
        invariant
            n == s@.len(),
            0 <= lo <= hi <= n,
            trim_start_deco(s@) == s@.subrange(lo as int, n as int),
            trim_end_deco(s@.subrange(lo as int, n as int)) == trim_end_deco(
                s@.subrange(lo as int, hi as int),
            ),
        decreases hi,
    {
        proof {
            let t = s@.subrange(lo as int, hi as int);
            assert(t.last() == s@[hi - 1]);
            assert(t.drop_last() =~= s@.subrange(lo as int, hi - 1));
        }
        hi = hi - 1;
    }
    proof {
        let t = s@.subrange(lo as int, hi as int);
        assert(!(t.len() > 0 && is_decoration(t.last())));
        assert(strip_decorations_spec(s@) == t);
    }
    s.substring_char(lo, hi).to_owned()
}

/// Splits a text on commas into its segments.
pub fn split_elements(s: &str) -> (r: Vec<String>)
    ensures
        r.deep_view() == split_commas(s@),
{
    let n = s.unicode_len();
    let mut out: Vec<String> = Vec::new();
    let mut start: usize = 0;
    let mut i: usize = 0;
    proof {
        assert(s@.subrange(0, 0) =~= Seq::<char>::empty());
        assert(out.deep_view().push(s@.subrange(0, 0)) =~~= split_commas(s@.subrange(0, 0)));
    }
    while i < n
        invariant
            n == s@.len(),
            0 <= start <= i <= n,
            out.deep_view().push(s@.subrange(start as int, i as int)) == split_commas(
                s@.subrange(0, i as int),
            ),
        decreases n - i,
    {
        let c = s.get_char(i);
        proof {
            let t = s@.subrange(0, i + 1);
            assert(t.drop_last() =~= s@.subrange(0, i as int));
            assert(t.last() == s@[i as int]);
            lemma_split_commas_len(s@.subrange(0, i as int));
        }
        if c == ',' {
            let ghost st = start as int;
            let ghost pre_out = out.deep_view();
            let seg = s.substring_char(start, i);
            out.push(seg.to_owned());
            start = i + 1;
            proof {
                assert(out.deep_view() =~~= pre_out.push(s@.subrange(st, i as int)));
                assert(s@.subrange(i + 1, i + 1) =~= Seq::<char>::empty());
                assert(out.deep_view().push(s@.subrange(i + 1, i + 1)) =~~= split_commas(
                    s@.subrange(0, i + 1),
                ));
            }
        } else {
            proof {
                let prev = split_commas(s@.subrange(0, i as int));
                let next = split_commas(s@.subrange(0, i + 1));
                assert(next == prev.update(prev.len() - 1, prev.last().push(s@[i as int])));
                assert(prev == out.deep_view().push(s@.subrange(start as int, i as int)));
                assert(prev.last() == s@.subrange(start as int, i as int));
                assert(prev.len() - 1 == out.deep_view().len());
                assert(s@.subrange(start as int, i as int).push(s@[i as int]) =~= s@.subrange(
                    start as int,
                    i + 1,
                ));
                assert(out.deep_view().push(s@.subrange(start as int, i + 1)) =~~= next);
            }
        }
        i = i + 1;
    }
    proof {
        assert(s@.subrange(0, n as int) =~= s@);
    }
    let ghost pre_out = out.deep_view();
    let seg = s.substring_char(start, n);
    out.push(seg.to_owned());
    proof {
        assert(out.deep_view() =~~= pre_out.push(s@.subrange(start as int, n as int)));
    }
    out
}

/// The comma-joined text of a list of elements.
pub open spec fn join_commas(es: Seq<Seq<char>>) -> Seq<char>
    decreases es.len(),
{
    if es.len() == 0 {
        Seq::empty()
    } else if es.len() == 1 {
        es.first()
    } else {
        join_commas(es.drop_last()) + seq![','] + es.last()
    }
}

/// Joins elements with a comma between each two.
pub fn join_elements(parts: &Vec<String>) -> (r: String)
    ensures
        r@ == join_commas(parts.deep_view()),
{
    let ghost es = parts.deep_view();
    let mut r = String::new();
    let mut i: usize = 0;
    let n = parts.len();
    proof {
        assert(r@ =~= join_commas(es.take(0)));
    }
    while i < n
        invariant
            n == parts.len(),
            es == parts.deep_view(),
            0 <= i <= n,
            r@ == join_commas(es.take(i as int)),
        decreases n - i,
    {
        proof {
            reveal_strlit(",");
            assert(es.take(i + 1).drop_last() =~= es.take(i as int));
            assert(es.take(i + 1).last() == es[i as int]);
            assert(es.take(i + 1).first() == es[0]);
        }
        if i > 0 {
            r.append(",");
            proof {
                assert(","@ =~= seq![',']);
            }
        }
        r.append(parts[i].as_str());
        proof {
            if i == 0 {
                assert(r@ =~= es[0]);
            }
        }
        i = i + 1;
    }
    proof {
        assert(es.take(n as int) =~= es);
    }
    r
}

/// Joining elements that are free of a non-comma character keeps the whole
/// free of it.
pub proof fn lemma_join_no_char(es: Seq<Seq<char>>, c: char)
    requires
        c != ',',
        forall|i: int| 0 <= i < es.len() ==> !(#[trigger] es[i]).contains(c),
    ensures
        !join_commas(es).contains(c),
    decreases es.len(),
{
    if es.len() == 0 {
        if join_commas(es).contains(c) {
            let i = choose|i: int| 0 <= i < join_commas(es).len() && join_commas(es)[i] == c;
        }
    } else if es.len() == 1 {
        assert(es.first() == es[0]);
    } else {
        assert forall|i: int| 0 <= i < es.drop_last().len() implies !(#[trigger] es.drop_last()[
            i
        ]).contains(c) by {
            assert(es.drop_last()[i] == es[i]);
        }
        lemma_join_no_char(es.drop_last(), c);
        assert(!seq![','].contains(c)) by {
            if seq![','].contains(c) {
                let i = choose|i: int| 0 <= i < 1 && seq![','][i] == c;
            }
        }
        crate::codec::lemma_append_no_char(join_commas(es.drop_last()), seq![','], c);
        assert(es.last() == es[es.len() - 1]);
        crate::codec::lemma_append_no_char(join_commas(es.drop_last()) + seq![','], es.last(), c);
    }
}

/// Strips the decoration from a list reply and splits it on commas: the raw
/// text of each sample, in order.
pub fn split_list(s: &str) -> (r: Vec<String>)
    ensures
        r.deep_view() == split_commas(strip_decorations_spec(s@)),
{
    let core = strip_decorations(s);
    split_elements(core.as_str())
}

} // verus!
