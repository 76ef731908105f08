//! The order of strings, and why the right bound of a prefix bounds every
//! string that starts with it.

use vstd::prelude::*;

use crate::string_util::prefix_right_bound::has_successor;
use crate::string_util::prefix_right_bound::right_bound;
use crate::string_util::prefix_right_bound::successor;

verus! {

/// The code of a character, by which characters are ordered.
pub open spec fn code(c: char) -> int {
    c as u32 as int
}

/// The order of strings: character by character, by code. A string sorts
/// below every longer string that starts with it. This is the order in which
/// `str` values compare.
pub open spec fn lex_lt(a: Seq<char>, b: Seq<char>) -> bool
    decreases a.len(),
{
    if b.len() == 0 {
        false
    } else if a.len() == 0 {
        true
    } else if a[0] == b[0] {
        lex_lt(a.drop_first(), b.drop_first())
    } else {
        code(a[0]) < code(b[0])
    }
}

/// Whether `s` starts with `p`.
pub open spec fn starts_with(s: Seq<char>, p: Seq<char>) -> bool {
    p.len() <= s.len() && s.subrange(0, p.len() as int) == p
}

/// The position of the last character of `p` that has a successor, or `-1`
/// where there is none.
pub open spec fn pivot(p: Seq<char>) -> int
    decreases p.len(),
{
    if p.len() == 0 {
        -1
    } else if has_successor(p.last()) {
        p.len() - 1
    } else {
        pivot(p.drop_last())
    }
}

/// The right bound of a prefix is the prefix up to its last character that has
/// a successor, followed by that successor; there is a bound exactly if there
/// is such a character.
pub proof fn lemma_right_bound_by_pivot(p: Seq<char>)
    ensures
        -1 <= pivot(p) < p.len(),
        right_bound(p) is Some <==> pivot(p) >= 0,
        pivot(p) >= 0 ==> has_successor(p[pivot(p)]) && right_bound(p) == Some(
            p.subrange(0, pivot(p)).push(successor(p[pivot(p)])),
        ),
        forall|j: int| pivot(p) < j < p.len() ==> !has_successor(#[trigger] p[j]),
    decreases p.len(),
{
    if p.len() == 0 {
    } else if has_successor(p.last()) {
        assert(p.drop_last() =~= p.subrange(0, p.len() - 1));
    } else {
        let head = p.drop_last();
        lemma_right_bound_by_pivot(head);
        if pivot(head) >= 0 {
            assert(head.subrange(0, pivot(head)) =~= p.subrange(0, pivot(head)));
        }
        assert forall|j: int| pivot(p) < j < p.len() implies !has_successor(#[trigger] p[j]) by {
            if j < head.len() {
                assert(head[j] == p[j]);
            }
        }
    }
}

/// Two strings that agree up to a position at which the first has the smaller
/// character are in order.
pub proof fn lemma_lex_lt_at(a: Seq<char>, b: Seq<char>, i: int)
    requires
        0 <= i < a.len(),
        i < b.len(),
        a.subrange(0, i) == b.subrange(0, i),
        code(a[i]) < code(b[i]),
    ensures
        lex_lt(a, b),
    decreases i,
{
    if i == 0 {
    } else {
        assert(a[0] == a.subrange(0, i)[0]);
        assert(b[0] == b.subrange(0, i)[0]);
        let a1 = a.drop_first();
        let b1 = b.drop_first();
        assert(a1.subrange(0, i - 1) =~= a.subrange(0, i).drop_first());
        assert(b1.subrange(0, i - 1) =~= b.subrange(0, i).drop_first());
        lemma_lex_lt_at(a1, b1, i - 1);
    }
}

/// No string sorts below a string that it starts with.
pub proof fn lemma_prefix_not_above(s: Seq<char>, p: Seq<char>)
    requires
        starts_with(s, p),
    ensures
        !lex_lt(s, p),
    decreases p.len(),
{
    if p.len() == 0 {
    } else {
        assert(s[0] == s.subrange(0, p.len() as int)[0]);
        assert(s.drop_first().subrange(0, p.len() - 1) =~= s.subrange(
            0,
            p.len() as int,
        ).drop_first());
        lemma_prefix_not_above(s.drop_first(), p.drop_first());
    }
}

/// The successor of a character has the next code.
pub proof fn lemma_successor_code(c: char)
    requires
        has_successor(c),
    ensures
        code(successor(c)) == code(c) + 1,
{
    vstd::utf8::char_is_scalar(c);
}

/// Every string that starts with a prefix lies in the range from the prefix to
/// its right bound: it does not sort below the prefix, and it sorts below the
/// bound.
pub proof fn law_bound_is_above_every_prefixed(p: Seq<char>, s: Seq<char>)
    requires
        starts_with(s, p),
        right_bound(p) is Some,
    ensures
        !lex_lt(s, p),
        lex_lt(s, right_bound(p)->0),
{
    lemma_prefix_not_above(s, p);
    lemma_right_bound_by_pivot(p);
    let i = pivot(p);
    let b = right_bound(p)->0;
    assert(b == p.subrange(0, i).push(successor(p[i])));
    assert(s[i] == s.subrange(0, p.len() as int)[i]);
    assert(s.subrange(0, i) =~= p.subrange(0, i));
    assert(b.subrange(0, i) =~= p.subrange(0, i));
    assert(b[i] == successor(p[i]));
    lemma_successor_code(p[i]);
    lemma_lex_lt_at(s, b, i);
}

/// A prefix has no right bound exactly if none of its characters has a
/// successor; the empty prefix is one of these.
pub proof fn law_no_bound_without_successor(p: Seq<char>)
    ensures
        right_bound(p) is None <==> forall|j: int| 0 <= j < p.len() ==> !has_successor(#[trigger] p[j]),
{
    lemma_right_bound_by_pivot(p);
}

} // verus!
