//! The candidate record and the identity notion used for deduplication.
//!
//! A movie is identified by its `id` field alone; records whose `id` is
//! absent are never considered duplicates of each other.

use vstd::prelude::*;

verus! {

/// A recommendable movie as the remote service describes it. Every field
/// except the structure itself is optional: the service may omit any of
/// them, and only `id` carries identity.
#[derive(Clone, Debug, PartialEq)]
pub struct Movie {
    pub id: Option<String>,
    pub title: Option<String>,
    pub description: Option<String>,
    pub imdb_rating: Option<String>,
    pub stars: Option<Vec<String>>,
    pub image_url: Option<String>,
    pub released_year: Option<String>,
    pub runtime: Option<String>,
    pub metadata: Option<String>,
    pub director: Option<String>,
    pub genres: Option<Vec<String>>,
}

/// True when `m` carries the identity `key`.
pub open spec fn has_id(m: Movie, key: Seq<char>) -> bool {
    m.id matches Some(s) && s@ == key
}

/// True when the two records carry the same identity. Records without an
/// `id` share an identity with nothing, not even themselves.
pub open spec fn shares_id(a: Movie, b: Movie) -> bool {
    a.id matches Some(x) && has_id(b, x@)
}

/// True when some record of `s` carries the identity `key`.
pub open spec fn contains_id(s: Seq<Movie>, key: Seq<char>) -> bool {
    exists|i: int| 0 <= i < s.len() && has_id(#[trigger] s[i], key)
}

/// True when `m`'s identity (if any) already occurs in `s`.
pub open spec fn duplicates_into(m: Movie, s: Seq<Movie>) -> bool {
    m.id matches Some(k) && contains_id(s, k@)
}

/// No identity occurs twice in `s`.
pub open spec fn ids_unique(s: Seq<Movie>) -> bool {
    forall|i: int, j: int| 0 <= i < j < s.len() ==> !shares_id(#[trigger] s[i], #[trigger] s[j])
}

/// No identity occurs both in `a` and in `b`.
pub open spec fn ids_disjoint(a: Seq<Movie>, b: Seq<Movie>) -> bool {
    forall|i: int, j: int|
        0 <= i < a.len() && 0 <= j < b.len() ==> !shares_id(#[trigger] a[i], #[trigger] b[j])
}

/// The position of the first record of `s` carrying the identity `key`,
/// or `-1` when none does.
pub open spec fn first_index_with_id(s: Seq<Movie>, key: Seq<char>) -> int
    decreases s.len(),
{
    if s.len() == 0 {
        -1
    } else if has_id(s[0], key) {
        0
    } else {
        let r = first_index_with_id(s.subrange(1, s.len() as int), key);
        if r < 0 {
            -1
        } else {
            r + 1
        }
    }
}

/// `first_index_with_id` finds exactly the first occurrence: it is `-1`
/// precisely when the identity is absent, and otherwise points at a
/// record with that identity before which none carries it.
pub proof fn lemma_first_index_with_id(s: Seq<Movie>, key: Seq<char>)
    ensures
        contains_id(s, key) <==> 0 <= first_index_with_id(s, key) < s.len(),
        !contains_id(s, key) ==> first_index_with_id(s, key) == -1,
        contains_id(s, key) ==> has_id(s[first_index_with_id(s, key)], key),
        forall|j: int| 0 <= j < first_index_with_id(s, key) ==> !has_id(#[trigger] s[j], key),
    decreases s.len(),
{
    if s.len() == 0 {
    } else if has_id(s[0], key) {
    } else {
        let t = s.subrange(1, s.len() as int);
        lemma_first_index_with_id(t, key);
        assert forall|i: int| 0 <= i < s.len() && has_id(#[trigger] s[i], key) implies contains_id(
            t,
            key,
        ) by {
            assert(t[i - 1] == s[i]);
        }
        if contains_id(t, key) {
            let r = first_index_with_id(t, key);
            assert(s[r + 1] == t[r]);
            assert forall|j: int| 0 <= j < r + 1 implies !has_id(#[trigger] s[j], key) by {
                if j > 0 {
                    assert(t[j - 1] == s[j]);
                }
            }
        }
    }
}

/// A record with the identity, before which none carries it, pins the
/// value of `first_index_with_id`.
pub proof fn lemma_first_index_is(s: Seq<Movie>, key: Seq<char>, i: int)
    requires
        0 <= i < s.len(),
        has_id(s[i], key),
        forall|j: int| 0 <= j < i ==> !has_id(#[trigger] s[j], key),
    ensures
        first_index_with_id(s, key) == i,
{
    lemma_first_index_with_id(s, key);
    assert(contains_id(s, key));
    let r = first_index_with_id(s, key);
    if r < i {
        assert(!has_id(s[r], key));
    }
}

/// Appending a record whose identity is not yet present keeps the
/// identities unique.
pub proof fn lemma_push_fresh_keeps_unique(s: Seq<Movie>, m: Movie)
    requires
        ids_unique(s),
        !duplicates_into(m, s),
    ensures
        ids_unique(s.push(m)),
{
    let t = s.push(m);
    assert forall|i: int, j: int| 0 <= i < j < t.len() implies !shares_id(
        #[trigger] t[i],
        #[trigger] t[j],
    ) by {
        if j == s.len() {
            assert(t[i] == s[i]);
            if shares_id(s[i], m) {
                assert(has_id(s[i], s[i].id->0@));
                assert(contains_id(s, m.id->0@));
            }
        } else {
            assert(t[i] == s[i] && t[j] == s[j]);
        }
    }
}

/// Removing one record cannot introduce a duplicate identity.
pub proof fn lemma_remove_keeps_unique(s: Seq<Movie>, i: int)
    requires
        0 <= i < s.len(),
        ids_unique(s),
    ensures
        ids_unique(s.remove(i)),
{
    let t = s.remove(i);
    assert forall|a: int, b: int| 0 <= a < b < t.len() implies !shares_id(
        #[trigger] t[a],
        #[trigger] t[b],
    ) by {
        let a0 = if a < i {
            a
        } else {
            a + 1
        };
        let b0 = if b < i {
            b
        } else {
            b + 1
        };
        assert(t[a] == s[a0]);
        assert(t[b] == s[b0]);
    }
}

/// Appending a record whose identity is absent from a sequence keeps
/// the sequence disjoint from another it shares nothing with.
pub proof fn lemma_push_fresh_keeps_disjoint(p: Seq<Movie>, sel: Seq<Movie>, m: Movie)
    requires
        ids_disjoint(p, sel),
        !duplicates_into(m, sel),
    ensures
        ids_disjoint(p.push(m), sel),
{
    let t = p.push(m);
    assert forall|a: int, b: int| 0 <= a < t.len() && 0 <= b < sel.len() implies !shares_id(
        #[trigger] t[a],
        #[trigger] sel[b],
    ) by {
        if a < p.len() {
            assert(t[a] == p[a]);
        } else {
            assert(t[a] == m);
            if shares_id(m, sel[b]) {
                assert(has_id(sel[b], m.id->0@));
                assert(contains_id(sel, m.id->0@));
            }
        }
    }
}

/// Moving a record out of a duplicate-free sequence that is disjoint
/// from `sel`, and appending it to `sel`, leaves the two sequences
/// disjoint: the moved identity was the only one of its kind.
pub proof fn lemma_take_insert_disjoint(p: Seq<Movie>, sel: Seq<Movie>, key: Seq<char>, i: int)
    requires
        ids_unique(p),
        ids_disjoint(p, sel),
        0 <= i < p.len(),
        has_id(p[i], key),
    ensures
        ids_disjoint(p.remove(i), sel.push(p[i])),
{
    let q = p.remove(i);
    let t = sel.push(p[i]);
    assert forall|a: int, b: int| 0 <= a < q.len() && 0 <= b < t.len() implies !shares_id(
        #[trigger] q[a],
        #[trigger] t[b],
    ) by {
        let a0 = if a < i {
            a
        } else {
            a + 1
        };
        assert(q[a] == p[a0]);
        if b < sel.len() {
            assert(t[b] == sel[b]);
        } else {
            assert(t[b] == p[i]);
            if shares_id(p[a0], p[i]) {
                if a0 < i {
                    assert(!shares_id(p[a0], p[i]));
                } else {
                    assert(!shares_id(p[i], p[a0]));
                    assert(has_id(p[a0], p[a0].id->0@));
                }
            }
        }
    }
}

/// True when `id` holds an identity equal to `key`.
pub(crate) fn option_id_is(id: &Option<String>, key: &String) -> (r: bool)
    ensures
        r == (id matches Some(s) && s@ == key@),
{
    match id {
        Some(s) => s.eq(key),
        None => false,
    }
}

/// The first position in `items` whose record carries the identity `key`,
/// if any record does.
pub(crate) fn find_by_id(items: &Vec<Movie>, key: &String) -> (r: Option<usize>)
    ensures
        match r {
            Some(i) => i < items@.len() && has_id(items@[i as int], key@) && i as int
                == first_index_with_id(items@, key@),
            None => !contains_id(items@, key@) && first_index_with_id(items@, key@) == -1,
        },
        r is Some <==> contains_id(items@, key@),
{
    let mut i: usize = 0;
    while i < items.len()
        invariant
            i <= items@.len(),
            forall|j: int| 0 <= j < i ==> !has_id(#[trigger] items@[j], key@),
        decreases items@.len() - i,
    {
        if option_id_is(&items[i].id, key) {
            proof {
                lemma_first_index_is(items@, key@, i as int);
            }
            return Some(i);
        }
        i += 1;
    }
    proof {
        lemma_first_index_with_id(items@, key@);
    }
    None
}

} // verus!
