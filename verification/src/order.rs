//! Sorting of sequences by a name key, under the lexicographic order of
//! `crate::text::lex_le`.

use vstd::prelude::*;

use crate::text::{lemma_lex_le_total, lemma_lex_le_trans, lex_le};

verus! {

/// The elements of `s` are in ascending key order.
pub open spec fn sorted_by_key<T>(key: spec_fn(T) -> Seq<char>, s: Seq<T>) -> bool {
    forall|i: int, j: int| 0 <= i < j < s.len() ==> lex_le(key(s[i]), key(s[j]))
}

/// The position at which `insert_sorted` places `x` into `s`: the first
/// index whose key is not below the key of `x`.
pub open spec fn insert_pos<T>(key: spec_fn(T) -> Seq<char>, x: T, s: Seq<T>) -> int
    decreases s.len(),
{
    if s.len() == 0 {
        0
    } else if lex_le(key(x), key(s[0])) {
        0
    } else {
        1 + insert_pos(key, x, s.drop_first())
    }
}

/// `s` with `x` inserted before the first element whose key is not below
/// the key of `x`.
pub open spec fn insert_sorted<T>(key: spec_fn(T) -> Seq<char>, x: T, s: Seq<T>) -> Seq<T>
    decreases s.len(),
{
    if s.len() == 0 {
        seq![x]
    } else if lex_le(key(x), key(s[0])) {
        seq![x] + s
    } else {
        seq![s[0]] + insert_sorted(key, x, s.drop_first())
    }
}

/// `s` sorted by key, by insertion.
pub open spec fn sort_by_key<T>(key: spec_fn(T) -> Seq<char>, s: Seq<T>) -> Seq<T>
    decreases s.len(),
{
    if s.len() == 0 {
        Seq::empty()
    } else {
        insert_sorted(key, s[0], sort_by_key(key, s.drop_first()))
    }
}

/// `insert_pos` lies within `s`, every key before it is below the key of
/// `x`, and the key at it (if any) is not.
pub proof fn lemma_insert_pos_bounds<T>(key: spec_fn(T) -> Seq<char>, x: T, s: Seq<T>)
    ensures
        0 <= insert_pos(key, x, s) <= s.len(),
        forall|k: int| 0 <= k < insert_pos(key, x, s) ==> !lex_le(key(x), key(s[k])),
        insert_pos(key, x, s) < s.len() ==> lex_le(key(x), key(s[insert_pos(key, x, s)])),
    decreases s.len(),
{
    if s.len() == 0 {
    } else if lex_le(key(x), key(s[0])) {
    } else {
        let t = s.drop_first();
        lemma_insert_pos_bounds(key, x, t);
        let pos = insert_pos(key, x, s);
        assert forall|k: int| 0 <= k < pos implies !lex_le(key(x), key(s[k])) by {
            if k > 0 {
                assert(t[k - 1] == s[k]);
            }
        }
        assert(pos < s.len() ==> s[pos] == t[pos - 1]);
    }
}

/// `insert_pos` is where the loop that scans for the first not-below key
/// stops.
pub proof fn lemma_insert_pos_at<T>(key: spec_fn(T) -> Seq<char>, x: T, s: Seq<T>, j: int)
    requires
        0 <= j <= s.len(),
        forall|k: int| 0 <= k < j ==> !lex_le(key(x), key(s[k])),
        j < s.len() ==> lex_le(key(x), key(s[j])),
    ensures
        insert_pos(key, x, s) == j,
    decreases j,
{
    if j == 0 {
    } else {
        let t = s.drop_first();
        assert forall|k: int| 0 <= k < j - 1 implies !lex_le(key(x), key(t[k])) by {
            assert(t[k] == s[k + 1]);
        }
        assert(j - 1 < t.len() ==> t[j - 1] == s[j]);
        lemma_insert_pos_at(key, x, t, j - 1);
    }
}

/// `insert_sorted` is insertion at `insert_pos`.
pub proof fn lemma_insert_sorted_is_insert<T>(key: spec_fn(T) -> Seq<char>, x: T, s: Seq<T>)
    ensures
        insert_sorted(key, x, s) == s.insert(insert_pos(key, x, s), x),
    decreases s.len(),
{
    lemma_insert_pos_bounds(key, x, s);
    if s.len() == 0 {
        assert(insert_sorted(key, x, s) =~= s.insert(0, x));
    } else if lex_le(key(x), key(s[0])) {
        assert(insert_sorted(key, x, s) =~= s.insert(0, x));
    } else {
        let t = s.drop_first();
        lemma_insert_sorted_is_insert(key, x, t);
        lemma_insert_pos_bounds(key, x, t);
        assert(seq![s[0]] + t.insert(insert_pos(key, x, t), x) =~= s.insert(
            1 + insert_pos(key, x, t),
            x,
        ));
    }
}

/// Inserting with `insert_sorted` keeps a sequence sorted.
pub proof fn lemma_insert_sorted_keeps_sorted<T>(key: spec_fn(T) -> Seq<char>, x: T, s: Seq<T>)
    requires
        sorted_by_key(key, s),
    ensures
        sorted_by_key(key, insert_sorted(key, x, s)),
{
    let pos = insert_pos(key, x, s);
    lemma_insert_pos_bounds(key, x, s);
    lemma_insert_sorted_is_insert(key, x, s);
    let out = insert_sorted(key, x, s);
    s.insert_ensures(pos, x);
    assert forall|i: int, j: int| 0 <= i < j < out.len() implies lex_le(
        key(out[i]),
        key(out[j]),
    ) by {
        if i < pos && j == pos {
            lemma_lex_le_total(key(x), key(s[i]));
        } else if i == pos && j > pos {
            assert(out[j] == s[j - 1]);
            if j - 1 > pos {
                lemma_lex_le_trans(key(x), key(s[pos]), key(s[j - 1]));
            }
        } else if i < pos && j > pos {
            assert(out[j] == s[j - 1]);
        } else if i > pos && j > pos {
            assert(out[i] == s[i - 1] && out[j] == s[j - 1]);
        }
    }
}

/// What `sort_by_key` returns is sorted.
pub proof fn lemma_sort_by_key_sorted<T>(key: spec_fn(T) -> Seq<char>, s: Seq<T>)
    ensures
        sorted_by_key(key, sort_by_key(key, s)),
    decreases s.len(),
{
    if s.len() == 0 {
    } else {
        lemma_sort_by_key_sorted(key, s.drop_first());
        lemma_insert_sorted_keeps_sorted(key, s[0], sort_by_key(key, s.drop_first()));
    }
}

/// Sorting neither adds nor drops elements: every element of the result
/// stands somewhere in `s`.
pub proof fn lemma_sort_by_key_elems<T>(key: spec_fn(T) -> Seq<char>, s: Seq<T>)
    ensures
        sort_by_key(key, s).len() == s.len(),
        forall|i: int|
            0 <= i < s.len() ==> exists|j: int|
                0 <= j < s.len() && #[trigger] sort_by_key(key, s)[i] == s[j],
    decreases s.len(),
{
    if s.len() == 0 {
    } else {
        let t = s.drop_first();
        let rest = sort_by_key(key, t);
        lemma_sort_by_key_elems(key, t);
        let pos = insert_pos(key, s[0], rest);
        lemma_insert_pos_bounds(key, s[0], rest);
        lemma_insert_sorted_is_insert(key, s[0], rest);
        rest.insert_ensures(pos, s[0]);
        let out = sort_by_key(key, s);
        assert forall|i: int| 0 <= i < s.len() implies exists|j: int|
            0 <= j < s.len() && #[trigger] out[i] == s[j] by {
            if i == pos {
                assert(out[i] == s[0]);
            } else {
                let ii = if i < pos {
                    i
                } else {
                    i - 1
                };
                assert(out[i] == rest[ii]);
                let jj = choose|jj: int| 0 <= jj < t.len() && rest[ii] == t[jj];
                assert(t[jj] == s[jj + 1]);
                assert(out[i] == s[jj + 1]);
            }
        }
    }
}

} // verus!
