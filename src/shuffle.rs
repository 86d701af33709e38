use std::hash::{BuildHasher, Hasher};

use vstd::multiset::Multiset;
use vstd::prelude::*;

verus! {

broadcast use {vstd::seq_lib::to_multiset_remove, vstd::seq_lib::to_multiset_insert, vstd::multiset::group_multiset_axioms};

/// Relies on std's `RandomState`: each new state carries fresh random keys, so
/// the hash of nothing it builds is an unpredictable number. Nothing is known of it.
#[verifier::external_body]
fn random_u64() -> u64 {
    std::hash::RandomState::new().build_hasher().finish()
}

/// Exchanges the entries at `i` and `j`, for `i < j`.
fn swap_entries<T>(v: &mut Vec<T>, i: usize, j: usize)
    requires
        i < j < old(v)@.len(),
    ensures
        final(v)@ == old(v)@.update(i as int, old(v)@[j as int]).update(j as int, old(v)@[i as int]),
        final(v)@.to_multiset() == old(v)@.to_multiset(),
{
    let ghost s = v@;
    let b = v.remove(j);
    let ghost s1 = v@;
    let a = v.remove(i);
    let ghost s2 = v@;
    v.insert(i, b);
    let ghost s3 = v@;
    v.insert(j, a);
    assert(v@ =~= s.update(i as int, s[j as int]).update(j as int, s[i as int]));
    let ghost m: Multiset<T> = s.to_multiset();
    assert(s1.to_multiset() == m.remove(b));
    assert(s2.to_multiset() == m.remove(b).remove(a));
    assert(s3.to_multiset() == m.remove(b).remove(a).insert(b));
    assert(v@.to_multiset() == m.remove(b).remove(a).insert(b).insert(a));
    proof {
        s.to_multiset_ensures();
        s1.to_multiset_ensures();
        assert(s[j as int] == b);
        assert(s1[i as int] == a);
        assert(s.contains(b));
        assert(s1.contains(a));
    }
    assert(m.count(b) > 0);
    assert(m.remove(b).count(a) > 0);
    assert(v@.to_multiset() =~= m);
}

/// Puts the entries in a random order (a Fisher-Yates pass); the entries
/// themselves, with their repetitions, stay the same.
pub fn shuffle<T>(vec: &mut Vec<T>)
    ensures
        final(vec)@.len() == old(vec)@.len(),
        final(vec)@.to_multiset() == old(vec)@.to_multiset(),
{
    let n = vec.len();
    if n < 2 {
        return;
    }
    let mut i: usize = 0;
    while i < n - 1
        invariant
            n == vec@.len(),
            n >= 2,
            i <= n - 1,
            vec@.to_multiset() == old(vec)@.to_multiset(),
        decreases n - i,
    {
        let j = (random_u64() % ((n - i) as u64)) as usize + i;
        if i < j {
            swap_entries(vec, i, j);
        }
        i = i + 1;
    }
}

} // verus!
