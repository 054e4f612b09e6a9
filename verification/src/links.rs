//! The shared table of classifier attach links.
//!
//! For every interface the classifier successfully attached to, the table
//! records the link handle the kernel returned; the handle is what later
//! detaches the classifier from that interface.  The table is viewed as the
//! sequence of its `(interface name, handle)` pairs in insertion order, and
//! well-formedness says the interface names are pairwise distinct.

use vstd::prelude::*;

verus! {

/// One recorded attachment: an interface name and the link handle the
/// kernel returned when the classifier attached to it.
#[derive(Debug)]
pub struct LinkEntry {
    pub iface: String,
    pub handle: u64,
}

/// The handle recorded for `key` in `s`, scanning from the front.
pub open spec fn seq_get(s: Seq<(Seq<char>, u64)>, key: Seq<char>) -> Option<u64>
    decreases s.len(),
{
    if s.len() == 0 {
        None
    } else if s[0].0 == key {
        Some(s[0].1)
    } else {
        seq_get(s.drop_first(), key)
    }
}

/// Interface-name-to-link-handle table.
pub struct LinkTable {
    entries: Vec<LinkEntry>,
}

impl View for LinkTable {
    type V = Seq<(Seq<char>, u64)>;

    /// The recorded `(interface name, handle)` pairs, in insertion order.
    closed spec fn view(&self) -> Seq<(Seq<char>, u64)> {
        self.entries@.map_values(|e: LinkEntry| (e.iface@, e.handle))
    }
}

impl LinkTable {
    /// Keys are pairwise distinct.
    pub open spec fn wf(self) -> bool {
        forall|i: int, j: int|
            0 <= i < j < self@.len() ==> #[trigger] self@[i].0 != #[trigger] self@[j].0
    }

    /// Whether a handle is recorded for this interface name.
    pub open spec fn spec_contains_key(self, key: Seq<char>) -> bool {
        exists|i: int| 0 <= i < self@.len() && #[trigger] self@[i].0 == key
    }

    /// An empty table.
    pub fn new() -> (r: LinkTable)
        ensures
            r@ == Seq::<(Seq<char>, u64)>::empty(),
            r.wf(),
    {
        let t = LinkTable { entries: Vec::new() };
        proof {
            assert(t@ =~= Seq::<(Seq<char>, u64)>::empty());
        }
        t
    }

    /// How many attachments are recorded.
    pub fn len(&self) -> (r: usize)
        ensures
            r == self@.len(),
    {
        self.entries.len()
    }

    /// Record the handle returned for a newly attached interface.
    pub fn insert(&mut self, iface: String, handle: u64)
        requires
            old(self).wf(),
            !old(self).spec_contains_key(iface@),
        ensures
            final(self)@ == old(self)@.push((iface@, handle)),
            final(self).wf(),
    {
        let ghost key = iface@;
        self.entries.push(LinkEntry { iface, handle });
        proof {
            assert(self@ =~= old(self)@.push((key, handle)));
            assert forall|i: int, j: int| 0 <= i < j < self@.len() implies #[trigger] self@[i].0
                != #[trigger] self@[j].0 by {
                if j == self@.len() - 1 {
                    assert(!old(self).spec_contains_key(key));
                    assert(old(self)@[i].0 != key);
                } else {
                    assert(old(self)@[i].0 != old(self)@[j].0);
                }
            }
        }
    }

    /// The handle recorded for this interface name, if any.
    pub fn get(&self, iface: &String) -> (r: Option<u64>)
        ensures
            r == seq_get(self@, iface@),
            r is Some <==> self.spec_contains_key(iface@),
    {
        proof {
            lemma_seq_get_contains(self@, iface@);
            assert(self@.skip(0) =~= self@);
        }
        let n = self.entries.len();
        let mut i: usize = 0;
        while i < n
            invariant
                n == self@.len(),
                0 <= i <= n,
                seq_get(self@, iface@) == seq_get(self@.skip(i as int), iface@),
                forall|k: int| 0 <= k < i ==> #[trigger] self@[k].0 != iface@,
            decreases n - i,
        {
            proof {
                assert(self@[i as int] == (self.entries@[i as int].iface@,
                self.entries@[i as int].handle));
                assert(self@.skip(i as int)[0] == self@[i as int]);
            }
            if self.entries[i].iface.eq(iface) {
                proof {
                    assert(seq_get(self@.skip(i as int), iface@) == Some(self@[i as int].1));
                }
                return Some(self.entries[i].handle);
            }
            proof {
                assert(self@.skip(i as int).drop_first() =~= self@.skip(i as int + 1));
            }
            i = i + 1;
        }
        proof {
            assert(self@.skip(n as int) =~= Seq::<(Seq<char>, u64)>::empty());
        }
        None
    }

    /// Remove and return the handle recorded for this interface name, as
    /// the veth renderer does when the interface is deleted.  On a miss the
    /// table is unchanged.
    pub fn remove(&mut self, iface: &String) -> (r: Option<u64>)
        requires
            old(self).wf(),
        ensures
            r == seq_get(old(self)@, iface@),
            r is None ==> final(self)@ == old(self)@,
            r is Some ==> exists|k: int|
                0 <= k < old(self)@.len() && old(self)@[k] == (iface@, r->0) && final(self)@ == old(
                    self,
                )@.remove(k),
            final(self).wf(),
            !final(self).spec_contains_key(iface@),
    {
        proof {
            lemma_seq_get_contains(self@, iface@);
            assert(self@.skip(0) =~= self@);
        }
        let n = self.entries.len();
        let mut i: usize = 0;
        while i < n
            invariant
                n == self@.len(),
                0 <= i <= n,
                old(self) == self,
                old(self).wf(),
                seq_get(self@, iface@) == seq_get(self@.skip(i as int), iface@),
                forall|k: int| 0 <= k < i ==> #[trigger] self@[k].0 != iface@,
            decreases n - i,
        {
            proof {
                assert(self@[i as int] == (self.entries@[i as int].iface@,
                self.entries@[i as int].handle));
                assert(self@.skip(i as int)[0] == self@[i as int]);
            }
            if self.entries[i].iface.eq(iface) {
                proof {
                    assert(seq_get(self@.skip(i as int), iface@) == Some(self@[i as int].1));
                }
                let ghost pre = self@;
                let ghost ki = i as int;
                let e = self.entries.remove(i);
                proof {
                    pre.remove_ensures(ki);
                    assert(self@ =~= pre.remove(ki));
                    assert(pre == old(self)@);
                    assert(pre[ki] == (iface@, e.handle));
                    assert forall|a: int, b: int| 0 <= a < b < self@.len() implies #[trigger] self@[a].0 != #[trigger] self@[b].0 by {
                        let a0: int = if a < ki {
                            a
                        } else {
                            a + 1
                        };
                        let b0: int = if b < ki {
                            b
                        } else {
                            b + 1
                        };
                        assert(self@[a] == pre[a0]);
                        assert(self@[b] == pre[b0]);
                        assert(old(self)@[a0].0 != old(self)@[b0].0);
                    }
                    assert forall|k: int| 0 <= k < self@.len() implies #[trigger] self@[k].0 != iface@ by {
                        let k0: int = if k < ki {
                            k
                        } else {
                            k + 1
                        };
                        assert(self@[k] == pre[k0]);
                        if k0 < ki {
                            assert(old(self)@[k0].0 != old(self)@[ki].0);
                        } else {
                            assert(old(self)@[ki].0 != old(self)@[k0].0);
                        }
                    }
                }
                return Some(e.handle);
            }
            proof {
                assert(self@.skip(i as int).drop_first() =~= self@.skip(i as int + 1));
            }
            i = i + 1;
        }
        proof {
            assert(self@.skip(n as int) =~= Seq::<(Seq<char>, u64)>::empty());
        }
        None
    }
}

/// `seq_get` finds a handle exactly when some pair in the sequence carries
/// the key.
pub proof fn lemma_seq_get_contains(s: Seq<(Seq<char>, u64)>, key: Seq<char>)
    ensures
        seq_get(s, key) is Some <==> exists|i: int| 0 <= i < s.len() && #[trigger] s[i].0 == key,
    decreases s.len(),
{
    if s.len() > 0 {
        lemma_seq_get_contains(s.drop_first(), key);
        if s[0].0 != key {
            if exists|i: int| 0 <= i < s.len() && #[trigger] s[i].0 == key {
                let i = choose|i: int| 0 <= i < s.len() && #[trigger] s[i].0 == key;
                assert(s.drop_first()[i - 1] == s[i]);
            }
            if seq_get(s.drop_first(), key) is Some {
                let i = choose|i: int|
                    0 <= i < s.drop_first().len() && #[trigger] s.drop_first()[i].0 == key;
                assert(s[i + 1] == s.drop_first()[i]);
            }
        }
    }
}

} // verus!
