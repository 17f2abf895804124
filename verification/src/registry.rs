//! The identity registry: the table from native window identities to
//! caller-assigned small integer ids.
//!
//! Entries are inserted when a window is created and removed when it is
//! destroyed; every window-scoped event consults the table to recover the
//! caller-facing id. Looking an unbound identity up is not an error — events
//! for already-destroyed or foreign windows are still reported, with the id
//! absent.

use vstd::prelude::*;

verus! {

/// No two entries share a native identity.
pub open spec fn keys_unique(s: Seq<(u64, u16)>) -> bool {
    forall|i: int, j: int| 0 <= i < j < s.len() ==> s[i].0 != s[j].0
}

/// The finite map an entry list stands for; a later entry for the same key
/// wins, though the registry never keeps two.
pub open spec fn map_of(s: Seq<(u64, u16)>) -> Map<u64, u16>
    decreases s.len(),
{
    if s.len() == 0 {
        Map::empty()
    } else {
        map_of(s.drop_last()).insert(s.last().0, s.last().1)
    }
}

proof fn lemma_map_of_contains(s: Seq<(u64, u16)>, k: u64)
    ensures
        map_of(s).contains_key(k) <==> exists|i: int| 0 <= i < s.len() && s[i].0 == k,
    decreases s.len(),
{
    if s.len() > 0 {
        lemma_map_of_contains(s.drop_last(), k);
        if s.last().0 == k {
            assert(s[s.len() - 1].0 == k);
        } else if map_of(s).contains_key(k) {
            let i = choose|i: int| 0 <= i < s.drop_last().len() && s.drop_last()[i].0 == k;
            assert(s[i].0 == k);
        } else if exists|i: int| 0 <= i < s.len() && s[i].0 == k {
            let i = choose|i: int| 0 <= i < s.len() && s[i].0 == k;
            assert(s.drop_last()[i].0 == k);
        }
    }
}

proof fn lemma_map_of_value(s: Seq<(u64, u16)>, i: int)
    requires
        keys_unique(s),
        0 <= i < s.len(),
    ensures
        map_of(s).contains_key(s[i].0),
        map_of(s)[s[i].0] == s[i].1,
    decreases s.len(),
{
    if i == s.len() - 1 {
    } else {
        lemma_map_of_value(s.drop_last(), i);
        assert(s.drop_last()[i] == s[i]);
        assert(s.last().0 != s[i].0);
    }
}

proof fn lemma_map_of_remove(s: Seq<(u64, u16)>, i: int)
    requires
        keys_unique(s),
        0 <= i < s.len(),
    ensures
        keys_unique(s.remove(i)),
        map_of(s.remove(i)) == map_of(s).remove(s[i].0),
{
    let t = s.remove(i);
    let k = s[i].0;
    assert forall|k2: u64| map_of(t).contains_key(k2) == map_of(s).remove(k).contains_key(
        k2,
    ) by {
        lemma_map_of_contains(t, k2);
        lemma_map_of_contains(s, k2);
        if k2 != k {
            if exists|j: int| 0 <= j < t.len() && t[j].0 == k2 {
                let j = choose|j: int| 0 <= j < t.len() && t[j].0 == k2;
                if j < i {
                    assert(s[j].0 == k2);
                } else {
                    assert(s[j + 1].0 == k2);
                }
            }
            if exists|j: int| 0 <= j < s.len() && s[j].0 == k2 {
                let j = choose|j: int| 0 <= j < s.len() && s[j].0 == k2;
                if j < i {
                    assert(t[j].0 == k2);
                } else {
                    assert(t[j - 1].0 == k2);
                }
            }
        } else {
            if exists|j: int| 0 <= j < t.len() && t[j].0 == k {
                let j = choose|j: int| 0 <= j < t.len() && t[j].0 == k;
                if j < i {
                    assert(s[j].0 == k && s[i].0 == k);
                } else {
                    assert(s[j + 1].0 == k && s[i].0 == k);
                }
                assert(false);
            }
        }
    }
    assert forall|k2: u64| map_of(t).contains_key(k2) implies map_of(t)[k2] == map_of(s).remove(
        k,
    )[k2] by {
        lemma_map_of_contains(t, k2);
        let j = choose|j: int| 0 <= j < t.len() && t[j].0 == k2;
        lemma_map_of_value(t, j);
        if j < i {
            lemma_map_of_value(s, j);
        } else {
            lemma_map_of_value(s, j + 1);
        }
    }
    assert(map_of(t) =~= map_of(s).remove(k));
}

/// One registry operation, for stating how a history of calls shows up in
/// lookups.
#[derive(Clone, Copy, Debug, PartialEq, Eq, Structural)]
pub enum RegOp {
    Bind(u64, u16),
    Unbind(u64),
}

/// The map a history of operations leaves behind.
pub open spec fn spec_apply_ops(m: Map<u64, u16>, ops: Seq<RegOp>) -> Map<u64, u16>
    decreases ops.len(),
{
    if ops.len() == 0 {
        m
    } else {
        let prev = spec_apply_ops(m, ops.drop_last());
        match ops.last() {
            RegOp::Bind(k, v) => prev.insert(k, v),
            RegOp::Unbind(k) => prev.remove(k),
        }
    }
}

/// The caller id of the most recent `Bind` of `k` that no later `Unbind` of
/// `k` cancelled.
pub open spec fn spec_last_binding(ops: Seq<RegOp>, k: u64) -> Option<u16>
    decreases ops.len(),
{
    if ops.len() == 0 {
        None
    } else {
        match ops.last() {
            RegOp::Bind(k2, v) => if k2 == k {
                Some(v)
            } else {
                spec_last_binding(ops.drop_last(), k)
            },
            RegOp::Unbind(k2) => if k2 == k {
                None
            } else {
                spec_last_binding(ops.drop_last(), k)
            },
        }
    }
}

/// Law: after any sequence of bind and unbind operations on an initially
/// empty registry, a lookup answers `Some` exactly when the most recent
/// operation on that native identity was a bind with no intervening unbind,
/// and it answers with that bind's caller id.
pub proof fn lemma_lookup_follows_last_bind(ops: Seq<RegOp>, k: u64)
    ensures
        ({
            let m = spec_apply_ops(Map::empty(), ops);
            (if m.contains_key(k) {
                Some(m[k])
            } else {
                None
            }) == spec_last_binding(ops, k)
        }),
    decreases ops.len(),
{
    if ops.len() > 0 {
        lemma_lookup_follows_last_bind(ops.drop_last(), k);
    }
}

/// The table from native window identities to caller-assigned ids.
pub struct IdentityRegistry {
    entries: Vec<(u64, u16)>,
}

impl View for IdentityRegistry {
    type V = Map<u64, u16>;

    closed spec fn view(&self) -> Map<u64, u16> {
        map_of(self.entries@)
    }
}

impl IdentityRegistry {
    /// The registry keeps at most one entry per native identity.
    pub closed spec fn wf(&self) -> bool {
        keys_unique(self.entries@)
    }

    /// An empty registry.
    pub fn new() -> (r: IdentityRegistry)
        ensures
            r.wf(),
            r@ == Map::<u64, u16>::empty(),
    {
        IdentityRegistry { entries: Vec::new() }
    }

    /// The position of the entry for `native`, if one exists.
    fn find_index(&self, native: u64) -> (r: Option<usize>)
        ensures
            match r {
                Some(i) => i < self.entries@.len() && self.entries@[i as int].0 == native,
                None => forall|j: int|
                    0 <= j < self.entries@.len() ==> self.entries@[j].0 != native,
            },
    {
        let mut i: usize = 0;
        while i < self.entries.len()
            invariant
                i <= self.entries@.len(),
                forall|j: int| 0 <= j < i ==> self.entries@[j].0 != native,
            decreases self.entries@.len() - i,
        {
            if self.entries[i].0 == native {
                return Some(i);
            }
            i = i + 1;
        }
        None
    }

    /// Removes the entry for `native`, if any.
    pub fn unbind(&mut self, native: u64)
        requires
            old(self).wf(),
        ensures
            final(self).wf(),
            final(self)@ == old(self)@.remove(native),
    {
        match self.find_index(native) {
            Some(i) => {
                proof {
                    lemma_map_of_remove(self.entries@, i as int);
                }
                self.entries.remove(i);
            },
            None => {
                proof {
                    lemma_map_of_contains(self.entries@, native);
                    assert(self@ =~= self@.remove(native));
                }
            },
        }
    }

    /// Binds `native` to `caller`, replacing any earlier binding of the same
    /// native identity.
    pub fn bind(&mut self, native: u64, caller: u16)
        requires
            old(self).wf(),
        ensures
            final(self).wf(),
            final(self)@ == old(self)@.insert(native, caller),
    {
        self.unbind(native);
        proof {
            lemma_map_of_contains(self.entries@, native);
        }
        let ghost s = self.entries@;
        self.entries.push((native, caller));
        proof {
            assert(self.entries@.drop_last() =~= s);
            assert(self@ =~= old(self)@.insert(native, caller));
        }
    }

    /// The caller id bound to `native`, if any.
    pub fn lookup(&self, native: u64) -> (r: Option<u16>)
        requires
            self.wf(),
        ensures
            r == (if self@.contains_key(native) {
                Some(self@[native])
            } else {
                None::<u16>
            }),
    {
        match self.find_index(native) {
            Some(i) => {
                proof {
                    lemma_map_of_value(self.entries@, i as int);
                }
                Some(self.entries[i].1)
            },
            None => {
                proof {
                    lemma_map_of_contains(self.entries@, native);
                }
                None
            },
        }
    }
}

} // verus!
