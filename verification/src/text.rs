//! String matching primitives used by the output-line classifier: prefix
//! tests, substring search, and removal of every occurrence of a pattern.

use vstd::prelude::*;

verus! {

/// The pattern `p` occurs in `s` starting at position `i`.
pub open spec fn is_match_at(s: Seq<char>, p: Seq<char>, i: int) -> bool {
    0 <= i && i + p.len() <= s.len() && s.subrange(i, i + p.len() as int) == p
}

/// `s` starts with `p`.
pub open spec fn has_prefix(s: Seq<char>, p: Seq<char>) -> bool {
    is_match_at(s, p, 0)
}

/// `p` occurs somewhere in `s`.
pub open spec fn contains_seq(s: Seq<char>, p: Seq<char>) -> bool {
    exists|i: int| is_match_at(s, p, i)
}

/// `s` with every occurrence of `p` removed, scanning left to right and
/// skipping over each match without rescanning it.
pub open spec fn remove_all(s: Seq<char>, p: Seq<char>) -> Seq<char>
    decreases s.len(),
{
    if p.len() == 0 || s.len() < p.len() {
        s
    } else if s.subrange(0, p.len() as int) == p {
        remove_all(s.subrange(p.len() as int, s.len() as int), p)
    } else {
        seq![s[0]] + remove_all(s.subrange(1, s.len() as int), p)
    }
}

/// Removing a pattern from a string that nowhere contains it leaves the
/// string unchanged.
pub proof fn lemma_remove_all_absent(s: Seq<char>, p: Seq<char>)
    requires
        1 <= p.len(),
        !contains_seq(s, p),
    ensures
        remove_all(s, p) == s,
    decreases s.len(),
{
    if s.len() >= p.len() {
        assert(!is_match_at(s, p, 0));
        assert(s.subrange(0, p.len() as int) != p);
        let tail = s.subrange(1, s.len() as int);
        assert forall|i: int| !is_match_at(tail, p, i) by {
            if 0 <= i && i + p.len() <= tail.len() {
                assert(tail.subrange(i, i + p.len() as int) =~= s.subrange(
                    i + 1,
                    i + 1 + p.len() as int,
                ));
                assert(!is_match_at(s, p, i + 1));
            }
        }
        lemma_remove_all_absent(tail, p);
        assert(seq![s[0]] + tail =~= s);
    }
}

/// Removing a pattern from a string that starts with it removes that
/// leading occurrence and goes on in the remainder.
pub proof fn lemma_remove_all_of_prefixed(p: Seq<char>, rest: Seq<char>)
    requires
        1 <= p.len(),
    ensures
        remove_all(p + rest, p) == remove_all(rest, p),
{
    let s = p + rest;
    assert(s.subrange(0, p.len() as int) =~= p);
    assert(s.subrange(p.len() as int, s.len() as int) =~= rest);
}

/// A line made of the pattern followed by text that nowhere contains the
/// pattern is stripped to exactly that text.
pub proof fn lemma_strip_prefix(p: Seq<char>, rest: Seq<char>)
    requires
        1 <= p.len(),
        !contains_seq(rest, p),
    ensures
        remove_all(p + rest, p) == rest,
{
    lemma_remove_all_of_prefixed(p, rest);
    lemma_remove_all_absent(rest, p);
}

/// Whether `p` occurs in `s` at position `i`, by character comparison.
pub fn match_at(s: &str, p: &str, i: usize) -> (r: bool)
    requires
        i + p@.len() <= s@.len(),
        s@.len() <= usize::MAX,
    ensures
        r == is_match_at(s@, p@, i as int),
{
    let p_len = p.unicode_len();
    let mut j: usize = 0;
    while j < p_len
        invariant
            i + p@.len() <= s@.len(),
            s@.len() <= usize::MAX,
            p_len == p@.len(),
            j <= p_len,
            forall|k: int| 0 <= k < j ==> s@[i + k] == p@[k],
        decreases p_len - j,
    {
        if s.get_char(i + j) != p.get_char(j) {
            assert(s@.subrange(i as int, i + p@.len() as int)[j as int] != p@[j as int]);
            return false;
        }
        j = j + 1;
    }
    assert(s@.subrange(i as int, i + p@.len() as int) =~= p@);
    true
}

/// Whether `s` starts with `p`.
pub fn starts_with_str(s: &str, p: &str) -> (r: bool)
    ensures
        r == has_prefix(s@, p@),
{
    let s_len = s.unicode_len();
    let p_len = p.unicode_len();
    if p_len > s_len {
        return false;
    }
    match_at(s, p, 0)
}

/// Whether `p` occurs anywhere in `s`.
pub fn contains_str(s: &str, p: &str) -> (r: bool)
    ensures
        r == contains_seq(s@, p@),
{
    let s_len = s.unicode_len();
    let p_len = p.unicode_len();
    if p_len > s_len {
        assert(forall|i: int| !is_match_at(s@, p@, i));
        return false;
    }
    if p_len == 0 {
        assert(s@.subrange(0, 0) =~= p@);
        assert(is_match_at(s@, p@, 0));
        return true;
    }
    let last = s_len - p_len;
    let mut i: usize = 0;
    while i <= last
        invariant
            s_len == s@.len(),
            p_len == p@.len(),
            1 <= p_len <= s_len,
            last == s_len - p_len,
            i <= last + 1,
            forall|k: int| 0 <= k < i ==> !is_match_at(s@, p@, k),
        decreases last + 1 - i,
    {
        if match_at(s, p, i) {
            return true;
        }
        i = i + 1;
    }
    assert(forall|k: int| i <= k ==> !is_match_at(s@, p@, k));
    false
}

/// `s` with every occurrence of `p` removed, scanning left to right.
pub fn remove_all_str(s: &str, p: &str) -> (r: String)
    requires
        1 <= p@.len(),
    ensures
        r@ == remove_all(s@, p@),
{
    let s_len = s.unicode_len();
    let p_len = p.unicode_len();
    let mut r = String::new();
    let mut i: usize = 0;
    proof {
        assert(s@.subrange(0, s_len as int) =~= s@);
        assert(r@ + remove_all(s@, p@) =~= remove_all(s@, p@));
    }
    while i < s_len
        invariant
            s_len == s@.len(),
            p_len == p@.len(),
            1 <= p_len,
            i <= s_len,
            remove_all(s@, p@) == r@ + remove_all(
                s@.subrange(i as int, s_len as int),
                p@,
            ),
        decreases s_len - i,
    {
        let ghost tail = s@.subrange(i as int, s_len as int);
        if p_len <= s_len - i && match_at(s, p, i) {
            proof {
                assert(tail.subrange(0, p_len as int) =~= s@.subrange(
                    i as int,
                    i + p_len as int,
                ));
                assert(tail.subrange(p_len as int, tail.len() as int) =~= s@.subrange(
                    i + p_len as int,
                    s_len as int,
                ));
                assert(r@ + remove_all(tail, p@) == r@ + remove_all(
                    s@.subrange(i + p_len as int, s_len as int),
                    p@,
                ));
            }
            i = i + p_len;
        } else {
            let c = s.substring_char(i, i + 1);
            proof {
                let tail1 = s@.subrange(i + 1, s_len as int);
                if p_len <= tail.len() {
                    assert(tail.subrange(0, p_len as int) =~= s@.subrange(
                        i as int,
                        i + p_len as int,
                    ));
                    assert(tail.subrange(0, p_len as int) != p@);
                    assert(tail.subrange(1, tail.len() as int) =~= tail1);
                    assert(remove_all(tail, p@) == seq![tail[0]] + remove_all(tail1, p@));
                } else {
                    assert(remove_all(tail, p@) == tail);
                    assert(remove_all(tail1, p@) == tail1);
                    assert(tail =~= seq![tail[0]] + tail1);
                }
                assert(c@ =~= seq![tail[0]]);
                assert((r@ + c@) + remove_all(tail1, p@) =~= r@ + (seq![tail[0]] + remove_all(
                    tail1,
                    p@,
                )));
            }
            r.append(c);
            i = i + 1;
        }
    }
    proof {
        assert(s@.subrange(s_len as int, s_len as int) =~= Seq::<char>::empty());
        assert(r@ + Seq::<char>::empty() =~= r@);
    }
    r
}

} // verus!
