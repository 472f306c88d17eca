//! First-match search over sequences, the lookup rule of every table.

use vstd::prelude::*;

verus! {

/// The first element of `s` satisfying `p`, if any.
pub open spec fn first_where<A>(s: Seq<A>, p: spec_fn(A) -> bool) -> Option<A>
    decreases s.len(),
{
    if s.len() == 0 {
        None
    } else if p(s[0]) {
        Some(s[0])
    } else {
        first_where(s.drop_first(), p)
    }
}

/// A one-element list holding `m` when `b` holds, else the empty list.
pub open spec fn listed_if<A>(b: bool, m: A) -> Seq<A> {
    if b { seq![m] } else { Seq::empty() }
}

/// The position of the first element of `s` satisfying `p`, if any.
pub open spec fn first_index<A>(s: Seq<A>, p: spec_fn(A) -> bool) -> Option<int>
    decreases s.len(),
{
    if s.len() == 0 {
        None
    } else if p(s[0]) {
        Some(0)
    } else {
        match first_index(s.drop_first(), p) {
            Some(k) => Some(k + 1),
            None => None,
        }
    }
}

/// The first matching position after a non-matching prefix is the answer;
/// with no match at all there is none.
pub proof fn lemma_first_index<A>(s: Seq<A>, p: spec_fn(A) -> bool, i: int)
    requires
        0 <= i <= s.len(),
        forall|j: int| 0 <= j < i ==> !p(#[trigger] s[j]),
        i < s.len() ==> p(s[i]),
    ensures
        i < s.len() ==> first_index(s, p) == Some(i),
        i == s.len() ==> first_index(s, p) is None,
    decreases i,
{
    if i > 0 {
        assert forall|j: int| 0 <= j < i - 1 implies !p(#[trigger] s.drop_first()[j]) by {
            assert(s.drop_first()[j] == s[j + 1]);
        }
        assert(i - 1 < s.drop_first().len() ==> s.drop_first()[i - 1] == s[i]);
        lemma_first_index(s.drop_first(), p, i - 1);
        assert(!p(s[0]));
    }
}

/// Position of the first entry of an association list with this key.
pub open spec fn key_index<T>(v: Seq<(String, T)>, key: Seq<char>) -> Option<int> {
    first_index(v, |e: (String, T)| e.0@ == key)
}

/// The value of the first entry of an association list with this key.
pub open spec fn key_get<T>(v: Seq<(String, T)>, key: Seq<char>) -> Option<T> {
    match key_index(v, key) {
        Some(k) => Some(v[k].1),
        None => None,
    }
}

/// No two entries of an association list share a key, as in the map the
/// list stands for.
pub open spec fn keys_distinct<T>(v: Seq<(String, T)>) -> bool {
    forall|a: int, b: int| 0 <= a < b < v.len() ==> #[trigger] v[a].0@ != #[trigger] v[b].0@
}

/// With distinct keys, looking a key up answers the one entry holding it,
/// whatever its position: the list behaves as a map.
pub proof fn lemma_key_get_unique<T>(v: Seq<(String, T)>, k: int)
    requires
        keys_distinct(v),
        0 <= k < v.len(),
    ensures
        key_index(v, v[k].0@) == Some(k),
        key_get(v, v[k].0@) == Some(v[k].1),
{
    let p = |e: (String, T)| e.0@ == v[k].0@;
    assert forall|j: int| 0 <= j < k implies !p(#[trigger] v[j]) by {
        assert(v[j].0@ != v[k].0@);
    }
    lemma_first_index(v, p, k);
}

/// Position of the first entry of an association list with this key.
pub fn find_key<T>(v: &Vec<(String, T)>, key: &str) -> (r: Option<usize>)
    ensures
        match r {
            Some(k) => key_index(v@, key@) == Some(k as int) && k < v@.len(),
            None => key_index(v@, key@) is None,
        },
{
    let ghost p = |e: (String, T)| e.0@ == key@;
    let mut i: usize = 0;
    while i < v.len()
        invariant
            0 <= i <= v@.len(),
            p == (|e: (String, T)| e.0@ == key@),
            forall|j: int| 0 <= j < i ==> !p(#[trigger] v@[j]),
        decreases v@.len() - i,
    {
        if crate::text::str_eq(v[i].0.as_str(), key) {
            proof {
                lemma_first_index(v@, p, i as int);
            }
            return Some(i);
        }
        i = i + 1;
    }
    proof {
        lemma_first_index(v@, p, i as int);
    }
    None
}

/// Views of a sequence of strings.
pub open spec fn strings_view(v: Seq<String>) -> Seq<Seq<char>> {
    v.map_values(|s: String| s@)
}

/// Appends a message to a list of messages.
pub fn push_msg(v: &mut Vec<String>, m: String)
    ensures
        strings_view(final(v)@) == strings_view(old(v)@).push(m@),
{
    v.push(m);
    assert(strings_view(v@) =~= strings_view(old(v)@).push(m@));
}

/// Skipping a prefix in which nothing matches leaves the first match unchanged.
pub proof fn lemma_first_where_skip<A>(s: Seq<A>, p: spec_fn(A) -> bool, i: int)
    requires
        0 <= i <= s.len(),
        forall|j: int| 0 <= j < i ==> !p(#[trigger] s[j]),
    ensures
        first_where(s, p) == first_where(s.skip(i), p),
    decreases i,
{
    if i > 0 {
        assert(!p(s[0]));
        assert(s.drop_first().skip(i - 1) =~= s.skip(i));
        assert forall|j: int| 0 <= j < i - 1 implies !p(#[trigger] s.drop_first()[j]) by {
            assert(s.drop_first()[j] == s[j + 1]);
        }
        lemma_first_where_skip(s.drop_first(), p, i - 1);
    } else {
        assert(s.skip(0) =~= s);
    }
}

/// The first element satisfying `p` after a non-matching prefix is the answer.
pub proof fn lemma_first_where_hit<A>(s: Seq<A>, p: spec_fn(A) -> bool, i: int)
    requires
        0 <= i < s.len(),
        p(s[i]),
        forall|j: int| 0 <= j < i ==> !p(#[trigger] s[j]),
    ensures
        first_where(s, p) == Some(s[i]),
{
    lemma_first_where_skip(s, p, i);
    assert(s.skip(i)[0] == s[i]);
}

/// When nothing matches there is no first match.
pub proof fn lemma_first_where_none<A>(s: Seq<A>, p: spec_fn(A) -> bool)
    requires
        forall|j: int| 0 <= j < s.len() ==> !p(#[trigger] s[j]),
    ensures
        first_where(s, p) is None,
{
    lemma_first_where_skip(s, p, s.len() as int);
    assert(s.skip(s.len() as int).len() == 0);
}

/// The first match satisfies `p` and comes from `s`.
pub proof fn lemma_first_where_found<A>(s: Seq<A>, p: spec_fn(A) -> bool)
    requires
        first_where(s, p) is Some,
    ensures
        p(first_where(s, p)->0),
        s.contains(first_where(s, p)->0),
    decreases s.len(),
{
    if !p(s[0]) {
        lemma_first_where_found(s.drop_first(), p);
        let x = first_where(s, p)->0;
        let k = choose|k: int| 0 <= k < s.drop_first().len() && s.drop_first()[k] == x;
        assert(s[k + 1] == x);
    } else {
        assert(s[0] == s[0]);
    }
}

/// An element is in a concatenation exactly when it is in either part.
pub proof fn lemma_contains_concat<A>(a: Seq<A>, b: Seq<A>, x: A)
    ensures
        (a + b).contains(x) <==> a.contains(x) || b.contains(x),
{
    if a.contains(x) {
        let j = choose|j: int| 0 <= j < a.len() && a[j] == x;
        assert((a + b)[j] == x);
    }
    if b.contains(x) {
        let j = choose|j: int| 0 <= j < b.len() && b[j] == x;
        assert((a + b)[a.len() + j] == x);
    }
    if (a + b).contains(x) {
        let j = choose|j: int| 0 <= j < (a + b).len() && (a + b)[j] == x;
        if j < a.len() {
            assert(a[j] == x);
        } else {
            assert(b[j - a.len()] == x);
        }
    }
}

/// An element is in a one-element list exactly when it is that element,
/// and never in an empty one.
pub proof fn lemma_contains_listed<A>(b: bool, y: A, x: A)
    ensures
        listed_if(b, y).contains(x) <==> b && x == y,
        seq![y].contains(x) <==> x == y,
        !Seq::<A>::empty().contains(x),
{
    if b && x == y {
        assert(listed_if(b, y)[0] == x);
    }
    assert(seq![y][0] == y);
}

} // verus!
