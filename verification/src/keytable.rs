//! A string-keyed association table with at most one entry per key.
//!
//! Each channel family of the registry keeps its per-user senders in one of
//! these tables behind a read/write lock. Entries are only ever added, never
//! removed or replaced, and the table's well-formedness (`wf`) — no two
//! entries share a key — is the invariant the lock maintains.

use vstd::prelude::*;

verus! {

/// Looks a key up in a sequence of key/value pairs, first match wins.
/// This is the mathematical model every operation of `UserTable` is
/// specified against.
pub open spec fn lookup<V>(s: Seq<(String, V)>, k: Seq<char>) -> Option<V>
    decreases s.len(),
{
    if s.len() == 0 {
        None
    } else if s[0].0@ == k {
        Some(s[0].1)
    } else {
        lookup(s.drop_first(), k)
    }
}

proof fn lemma_lookup_push_other<V>(s: Seq<(String, V)>, p: (String, V), k: Seq<char>)
    requires
        k != p.0@,
    ensures
        lookup(s.push(p), k) == lookup(s, k),
    decreases s.len(),
{
    if s.len() == 0 {
        assert(s.push(p)[0] == p);
        assert(s.push(p).drop_first() =~= Seq::<(String, V)>::empty());
        assert(lookup(s.push(p).drop_first(), k) is None);
        assert(lookup(s, k) is None);
    } else {
        assert(s.push(p)[0] == s[0]);
        assert(s.push(p).drop_first() =~= s.drop_first().push(p));
        lemma_lookup_push_other(s.drop_first(), p, k);
        assert(lookup(s.push(p).drop_first(), k) == lookup(s.drop_first(), k));
    }
}

proof fn lemma_lookup_push_self<V>(s: Seq<(String, V)>, p: (String, V))
    requires
        lookup(s, p.0@) is None,
    ensures
        lookup(s.push(p), p.0@) == Some(p.1),
    decreases s.len(),
{
    if s.len() == 0 {
        assert(s.push(p)[0] == p);
    } else {
        assert(s.push(p)[0] == s[0]);
        assert(s.push(p).drop_first() =~= s.drop_first().push(p));
        lemma_lookup_push_self(s.drop_first(), p);
    }
}

proof fn lemma_lookup_none_no_index<V>(s: Seq<(String, V)>, k: Seq<char>)
    requires
        lookup(s, k) is None,
    ensures
        forall|i: int| 0 <= i < s.len() ==> (#[trigger] s[i]).0@ != k,
    decreases s.len(),
{
    if s.len() > 0 {
        lemma_lookup_none_no_index(s.drop_first(), k);
        assert forall|i: int| 0 <= i < s.len() implies (#[trigger] s[i]).0@ != k by {
            if i > 0 {
                assert(s.drop_first()[i - 1] == s[i]);
            }
        }
    }
}

/// Relies on `str`'s `PartialEq` impl: two string slices compare equal
/// exactly when their character sequences are equal.
#[verifier::external_body]
fn str_eq(a: &str, b: &str) -> (r: bool)
    ensures
        r == (a@ == b@),
{
    a == b
}

pub struct UserTable<V> {
    entries: Vec<(String, V)>,
}

impl<V> UserTable<V> {
    /// The entries in insertion order.
    pub closed spec fn key_values(&self) -> Seq<(String, V)> {
        self.entries@
    }

    /// The value stored under a key, if any.
    pub open spec fn spec_find(&self, k: Seq<char>) -> Option<V> {
        lookup(self.key_values(), k)
    }

    pub open spec fn len(&self) -> nat {
        self.key_values().len()
    }

    /// At most one entry per key.
    pub open spec fn wf(&self) -> bool {
        forall|i: int, j: int|
            0 <= i < j < self.key_values().len() ==> (#[trigger] self.key_values()[i]).0@ != (
            #[trigger] self.key_values()[j]).0@
    }

    pub fn new() -> (t: Self)
        ensures
            t.wf(),
            t.len() == 0,
            forall|k: Seq<char>| t.spec_find(k) is None,
    {
        UserTable { entries: Vec::new() }
    }

    pub fn find<'a>(&'a self, key: &str) -> (r: Option<&'a V>)
        ensures
            match r {
                Some(v) => self.spec_find(key@) == Some(*v),
                None => self.spec_find(key@) is None,
            },
    {
        let n: usize = self.entries.len();
        let mut i: usize = 0;
        proof {
            assert(self.entries@.skip(0) =~= self.entries@);
        }
        while i < n
            invariant
                n == self.entries.len(),
                i <= n,
                lookup(self.entries@, key@) == lookup(self.entries@.skip(i as int), key@),
            decreases n - i,
        {
            proof {
                assert(self.entries@.skip(i as int)[0] == self.entries@[i as int]);
            }
            if str_eq(self.entries[i].0.as_str(), key) {
                return Some(&self.entries[i].1);
            }
            proof {
                assert(self.entries@.skip(i as int).drop_first() =~= self.entries@.skip(
                    i as int + 1,
                ));
            }
            i = i + 1;
        }
        None
    }

    pub fn insert_new(&mut self, key: &str, value: V)
        requires
            old(self).wf(),
            old(self).spec_find(key@) is None,
        ensures
            final(self).wf(),
            final(self).len() == old(self).len() + 1,
            final(self).spec_find(key@) == Some(value),
            forall|k2: Seq<char>|
                k2 != key@ ==> final(self).spec_find(k2) == old(self).spec_find(k2),
    {
        let owned: String = key.to_owned();
        self.entries.push((owned, value));
        proof {
            let prev = old(self).entries@;
            let p = self.entries@[self.entries@.len() - 1];
            assert(self.entries@ =~= prev.push(p));
            lemma_lookup_push_self(prev, p);
            assert forall|k2: Seq<char>| k2 != key@ implies self.spec_find(k2) == old(
                self,
            ).spec_find(k2) by {
                lemma_lookup_push_other(prev, p, k2);
            }
            lemma_lookup_none_no_index(prev, key@);
            assert forall|i: int, j: int| 0 <= i < j < self.entries@.len() implies (
            #[trigger] self.entries@[i]).0@ != (#[trigger] self.entries@[j]).0@ by {
                if j < prev.len() {
                    assert((prev[i]).0@ != (prev[j]).0@);
                } else {
                    assert(self.entries@[j] == p);
                    assert((prev[i]).0@ != key@);
                }
            }
        }
    }
}

} // verus!
