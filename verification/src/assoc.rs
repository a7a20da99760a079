//! The mapping that a list of key-value pairs denotes, and how it changes
//! when the list does.

use vstd::prelude::*;

verus! {

/// The mapping that `s` denotes: each pair binds its key, and a later pair
/// wins over an earlier one with the same key.
pub open spec fn assoc<K, V>(s: Seq<(K, V)>) -> Map<K, V>
    decreases s.len(),
{
    if s.len() == 0 {
        Map::empty()
    } else {
        assoc(s.drop_last()).insert(s.last().0, s.last().1)
    }
}

/// A key that no pair holds is unbound.
pub proof fn lemma_assoc_absent<K, V>(s: Seq<(K, V)>, k: K)
    requires
        forall|i: int| 0 <= i < s.len() ==> (#[trigger] s[i]).0 != k,
    ensures
        !assoc(s).contains_key(k),
    decreases s.len(),
{
    if s.len() > 0 {
        let t = s.drop_last();
        assert forall|i: int| 0 <= i < t.len() implies (#[trigger] t[i]).0 != k by {
            assert(t[i] == s[i]);
        }
        lemma_assoc_absent(t, k);
        assert(s[s.len() - 1].0 != k);
    }
}

/// The last pair that holds a key decides what the key is bound to.
pub proof fn lemma_assoc_last<K, V>(s: Seq<(K, V)>, i: int)
    requires
        0 <= i < s.len(),
        forall|j: int| i < j < s.len() ==> (#[trigger] s[j]).0 != s[i].0,
    ensures
        assoc(s).contains_key(s[i].0),
        assoc(s)[s[i].0] == s[i].1,
    decreases s.len(),
{
    if i < s.len() - 1 {
        let t = s.drop_last();
        assert(t[i] == s[i]);
        assert forall|j: int| i < j < t.len() implies (#[trigger] t[j]).0 != t[i].0 by {
            assert(t[j] == s[j]);
        }
        lemma_assoc_last(t, i);
        assert(s[s.len() - 1].0 != s[i].0);
    }
}

/// Replacing the value in the last pair that holds a key rebinds that key
/// and no other.
pub proof fn lemma_assoc_update<K, V>(s: Seq<(K, V)>, i: int, v: V)
    requires
        0 <= i < s.len(),
        forall|j: int| i < j < s.len() ==> (#[trigger] s[j]).0 != s[i].0,
    ensures
        assoc(s.update(i, (s[i].0, v))) == assoc(s).insert(s[i].0, v),
    decreases s.len(),
{
    let k = s[i].0;
    let u = s.update(i, (k, v));
    if i == s.len() - 1 {
        assert(u.drop_last() == s.drop_last());
    } else {
        let t = s.drop_last();
        assert(t[i] == s[i]);
        assert forall|j: int| i < j < t.len() implies (#[trigger] t[j]).0 != t[i].0 by {
            assert(t[j] == s[j]);
        }
        lemma_assoc_update(t, i, v);
        assert(u.drop_last() == t.update(i, (k, v)));
        assert(u.last() == s.last());
        assert(s[s.len() - 1].0 != k);
    }
}

/// Putting a pair with a fresh key anywhere into the list binds that key and
/// changes no other.
pub proof fn lemma_assoc_insert<K, V>(s: Seq<(K, V)>, at: int, k: K, v: V)
    requires
        0 <= at <= s.len(),
        forall|i: int| 0 <= i < s.len() ==> (#[trigger] s[i]).0 != k,
    ensures
        assoc(s.insert(at, (k, v))) == assoc(s).insert(k, v),
    decreases s.len(),
{
    let u = s.insert(at, (k, v));
    if at == s.len() {
        assert(u.drop_last() == s);
    } else {
        let t = s.drop_last();
        assert forall|i: int| 0 <= i < t.len() implies (#[trigger] t[i]).0 != k by {
            assert(t[i] == s[i]);
        }
        lemma_assoc_insert(t, at, k, v);
        assert(u.drop_last() == t.insert(at, (k, v)));
        assert(u.last() == s.last());
        assert(s[s.len() - 1].0 != k);
    }
}

} // verus!
