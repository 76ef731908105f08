use vstd::prelude::*;

verus! {

/// Whether the code that follows the code of `c` is a character too. It is not
/// for the last character of all, nor for the last one below the surrogates.
pub open spec fn has_successor(c: char) -> bool {
    c as u32 != 0xD7FF && c as u32 != 0x10FFFF
}

/// The character whose code follows the code of `c`.
pub open spec fn successor(c: char) -> char {
    ((c as u32 + 1) as u32) as char
}

/// The right bound of the prefix `p`: `p` cut behind its last character that
/// has a successor, with that character replaced by its successor. There is
/// none if no character of `p` has a successor.
pub open spec fn right_bound(p: Seq<char>) -> Option<Seq<char>>
    decreases p.len(),
{
    if p.len() == 0 {
        None
    } else if has_successor(p.last()) {
        Some(p.drop_last().push(successor(p.last())))
    } else {
        right_bound(p.drop_last())
    }
}

/// The characters of a bound, where there is one.
pub open spec fn bound_view(bound: Option<String>) -> Option<Seq<char>> {
    match bound {
        Some(b) => Some(b@),
        None => None,
    }
}

/// The characters of `p`, in order.
fn chars_of(p: &str) -> (chars: Vec<char>)
    ensures
        chars@ == p@,
{
    broadcast use vstd::string::group_string_axioms;

    let mut chars: Vec<char> = Vec::new();
    for c in rest: p.chars()
        invariant
            rest.seq() == p@,
            chars@ == p@.subrange(0, rest.index() as int),
    {
        chars.push(c);
        assert(chars@ =~= p@.subrange(0, rest.index() + 1));
    }
    assert(chars@ =~= p@);
    chars
}

/// Computes the exclusive right bound for a range query by prefix.
///
/// Every string that starts with `p` sorts below the bound, so the range from
/// `p` to the bound holds all of them. The bound is found from the end of `p`:
/// the last character that has a successor is replaced by it, and what follows
/// it is dropped. There is no bound for the empty prefix, nor for one made only
/// of characters without a successor.
pub fn prefix_right_bound(p: &str) -> (bound: Option<String>)
    ensures
        bound_view(bound) == right_bound(p@),
{
    let chars = chars_of(p);
    let mut i: usize = chars.len();
    assert(chars@.subrange(0, i as int) =~= chars@);
    while i > 0
        invariant
            i <= chars@.len(),
            chars@ == p@,
            right_bound(p@) == right_bound(chars@.subrange(0, i as int)),
        decreases i,
    {
        let last = chars[i - 1];
        let ghost head = chars@.subrange(0, i as int);
        assert(head.last() == last);
        assert(head.drop_last() =~= chars@.subrange(0, i - 1));
        proof {
            vstd::utf8::char_is_scalar(last);
        }
        let code: u32 = last as u32;
        match char::from_u32(code + 1) {
            Some(next) => {
                let mut result = String::new();
                let mut k: usize = 0;
                while k < i - 1
                    invariant
                        k <= i - 1,
                        i <= chars@.len(),
                        result@ == chars@.subrange(0, k as int),
                    decreases i - 1 - k,
                {
                    result.push(chars[k]);
                    k += 1;
                    assert(result@ =~= chars@.subrange(0, k as int));
                }
                result.push(next);
                return Some(result);
            },
            None => {},
        }
        i -= 1;
    }
    assert(chars@.subrange(0, 0).len() == 0);
    None
}

} // verus!
