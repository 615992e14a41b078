use vstd::prelude::*;

use crate::context::ContextTypeInfo;

verus! {

/// The process-wide table of context type descriptors: one per type key, each
/// with an identity of its own.
pub struct ContextTypeRegistry {
    infos: Vec<ContextTypeInfo>,
}

/// The descriptors in `entries` that are registered under `key`.
pub open spec fn registered_at(entries: Seq<ContextTypeInfo>, key: u64, i: int) -> bool {
    0 <= i < entries.len() && entries[i].type_key == key
}

impl ContextTypeRegistry {
    pub closed spec fn entries(self) -> Seq<ContextTypeInfo> {
        self.infos@
    }

    /// Each descriptor's identity is its position, and no key is registered twice.
    pub closed spec fn wf(self) -> bool {
        &&& forall|i: int|
            0 <= i < self.infos@.len() ==> (#[trigger] self.infos@[i]).unique_type == i
        &&& forall|i: int, j: int|
            0 <= i < self.infos@.len() && 0 <= j < self.infos@.len() && (#[trigger] self.infos@[i]).type_key
                == (#[trigger] self.infos@[j]).type_key ==> i == j
    }

    /// The descriptor registered under `key`, if any.
    pub open spec fn descriptor(self, key: u64) -> Option<ContextTypeInfo> {
        if exists|i: int| registered_at(self.entries(), key, i) {
            Some(self.entries()[choose|i: int| registered_at(self.entries(), key, i)])
        } else {
            None
        }
    }

    pub fn new() -> (r: Self)
        ensures
            r.wf(),
            r.entries() == Seq::<ContextTypeInfo>::empty(),
    {
        ContextTypeRegistry { infos: Vec::new() }
    }

    /// The descriptor registered under `key`, if any.
    pub fn lookup(&self, key: u64) -> (r: Option<ContextTypeInfo>)
        requires
            self.wf(),
        ensures
            r == self.descriptor(key),
    {
        let mut i: usize = 0;
        while i < self.infos.len()
            invariant
                self.wf(),
                i <= self.infos@.len(),
                forall|j: int| 0 <= j < i ==> !registered_at(self.infos@, key, j),
            decreases self.infos@.len() - i,
        {
            if self.infos[i].type_key == key {
                let info = self.infos[i];
                proof {
                    assert(registered_at(self.entries(), key, i as int));
                    let c = choose|j: int| registered_at(self.entries(), key, j);
                    assert(self.infos@[c].type_key == self.infos@[i as int].type_key);
                    assert(c == i);
                }
                return Some(info);
            }
            i = i + 1;
        }
        None
    }

    /// Registers a context type once: the first call under a key builds its
    /// descriptor, and every later call hands back that same descriptor.
    pub fn register(&mut self, key: u64, name: &'static str, context_size: usize) -> (r:
        ContextTypeInfo)
        requires
            old(self).wf(),
            old(self).entries().len() < u64::MAX,
        ensures
            final(self).wf(),
            final(self).descriptor(key) == Some(r),
            forall|k: u64| k != key ==> #[trigger] final(self).descriptor(k) == old(self).descriptor(k),
            old(self).descriptor(key) is Some ==> final(self).entries() == old(self).entries() && r == old(
                self,
            ).descriptor(key)->Some_0,
            old(self).descriptor(key) is None ==> r == (ContextTypeInfo {
                unique_type: old(self).entries().len() as u64,
                type_key: key,
                name,
                context_size,
            }) && final(self).entries() == old(self).entries().push(r),
    {
        match self.lookup(key) {
            Some(info) => info,
            None => {
                let info = ContextTypeInfo {
                    unique_type: self.infos.len() as u64,
                    type_key: key,
                    name,
                    context_size,
                };
                self.infos.push(info);
                proof {
                    let n = old(self).entries().len() as int;
                    assert(registered_at(self.entries(), key, n));
                    assert forall|k: u64| k != key implies #[trigger] self.descriptor(k) == old(self).descriptor(k) by {
                        assert forall|i: int| registered_at(self.entries(), k, i) <==> registered_at(old(self).entries(), k, i) by {
                            if 0 <= i < n {
                                assert(self.entries()[i] == old(self).entries()[i]);
                            }
                        }
                        if exists|i: int| registered_at(self.entries(), k, i) {
                            let c = choose|i: int| registered_at(self.entries(), k, i);
                            let d = choose|i: int| registered_at(old(self).entries(), k, i);
                            assert(self.infos@[c].type_key == self.infos@[d].type_key);
                        }
                    }
                    assert forall|i: int| registered_at(self.entries(), key, i) implies i == n by {
                        if i < n {
                            assert(registered_at(old(self).entries(), key, i));
                        }
                    }
                    assert forall|i: int, j: int|
                        0 <= i < self.infos@.len() && 0 <= j < self.infos@.len() && (#[trigger] self.infos@[i]).type_key
                            == (#[trigger] self.infos@[j]).type_key implies i == j by {
                        if i < n && j < n {
                            assert(old(self).infos@[i] == self.infos@[i]);
                            assert(old(self).infos@[j] == self.infos@[j]);
                        } else if i < n {
                            assert(registered_at(old(self).entries(), key, i));
                        } else if j < n {
                            assert(registered_at(old(self).entries(), key, j));
                        }
                    }
                }
                info
            },
        }
    }

    /// Exactly one descriptor stands for each registered type: two descriptors taken
    /// from the registry have the same identity if and only if they were registered
    /// under the same key.
    pub proof fn lemma_one_descriptor_per_type(&self, k1: u64, k2: u64)
        requires
            self.wf(),
            self.descriptor(k1) is Some,
            self.descriptor(k2) is Some,
        ensures
            self.descriptor(k1)->Some_0.unique_type == self.descriptor(k2)->Some_0.unique_type
                <==> k1 == k2,
    {
        let i = choose|i: int| registered_at(self.entries(), k1, i);
        let j = choose|j: int| registered_at(self.entries(), k2, j);
        assert(self.infos@[i].unique_type == i);
        assert(self.infos@[j].unique_type == j);
    }
}

} // verus!
