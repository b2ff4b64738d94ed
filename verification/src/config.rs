//! Load-once configuration data consulted by the resolver: a flat string
//! configuration map per backend, and a table of named profiles.
//!
//! Both are association lists with pairwise-distinct keys, so lookup,
//! update and removal have exact map semantics.

use vstd::prelude::*;

use crate::assoc::{
    assoc_find, assoc_get, assoc_index, assoc_set, assoc_wf, lemma_assoc_none_iff,
    lemma_assoc_remove_match,
};

verus! {

/// A flat key-value configuration for one backend.
pub struct ConfigMap {
    pub entries: Vec<(String, String)>,
}

impl ConfigMap {
    /// Keys are pairwise distinct.
    pub open spec fn wf(&self) -> bool {
        assoc_wf(self.entries@)
    }

    /// The value bound to `key`, as a character sequence.
    pub open spec fn spec_get(&self, key: Seq<char>) -> Option<Seq<char>> {
        match assoc_find(self.entries@, key, 0) {
            Some(v) => Some(v@),
            None => None,
        }
    }

    /// The map abstraction of this configuration.
    pub open spec fn as_map(&self) -> Map<Seq<char>, Seq<char>> {
        Map::new(
            |k: Seq<char>| self.spec_get(k) is Some,
            |k: Seq<char>|
                match self.spec_get(k) {
                    Some(v) => v,
                    None => Seq::empty(),
                },
        )
    }

    /// An empty configuration.
    pub fn new() -> (r: ConfigMap)
        ensures
            r.wf(),
            forall|k: Seq<char>| r.spec_get(k) is None,
    {
        ConfigMap { entries: Vec::new() }
    }

    /// Bind `key` to `value`, replacing an existing binding and leaving all
    /// other bindings unchanged.
    pub fn set(&mut self, key: String, value: String)
        requires
            old(self).wf(),
        ensures
            final(self).wf(),
            final(self).spec_get(key@) == Some(value@),
            forall|k: Seq<char>| k != key@ ==> final(self).spec_get(k) == old(self).spec_get(k),
    {
        assoc_set(&mut self.entries, key, value);
    }

    /// Look up the value bound to `key`.
    pub fn get(&self, key: &str) -> (r: Option<&String>)
        ensures
            match r {
                Some(v) => self.spec_get(key@) == Some(v@),
                None => self.spec_get(key@) is None,
            },
    {
        assoc_get(&self.entries, key)
    }

    /// An order-preserving copy of this configuration.
    pub fn duplicate(&self) -> (r: ConfigMap)
        ensures
            r.entries@ == self.entries@,
    {
        let n = self.entries.len();
        let mut out: Vec<(String, String)> = Vec::new();
        let mut j: usize = 0;
        while j < n
            invariant
                0 <= j <= n,
                n == self.entries@.len(),
                out@ =~= self.entries@.subrange(0, j as int),
            decreases n - j,
        {
            out.push((self.entries[j].0.clone(), self.entries[j].1.clone()));
            j += 1;
        }
        assert(out@ =~= self.entries@);
        ConfigMap { entries: out }
    }

    /// A copy of this configuration without the binding for `key` (if any);
    /// all other bindings are unchanged.
    pub fn removed(&self, key: &str) -> (r: ConfigMap)
        requires
            self.wf(),
        ensures
            r.wf(),
            r.spec_get(key@) is None,
            forall|k: Seq<char>| k != key@ ==> r.spec_get(k) == self.spec_get(k),
    {
        match assoc_index(&self.entries, key) {
            None => {
                proof {
                    lemma_assoc_none_iff(self.entries@, key@, 0);
                }
                self.duplicate()
            },
            Some(i) => {
                let n = self.entries.len();
                let mut out: Vec<(String, String)> = Vec::new();
                let mut j: usize = 0;
                while j < n
                    invariant
                        0 <= j <= n,
                        i < n,
                        n == self.entries@.len(),
                        j <= i ==> out@ =~= self.entries@.subrange(0, j as int),
                        j > i ==> out@ =~= self.entries@.subrange(0, i as int)
                            + self.entries@.subrange(i + 1, j as int),
                    decreases n - j,
                {
                    if j != i {
                        out.push((self.entries[j].0.clone(), self.entries[j].1.clone()));
                    }
                    j += 1;
                }
                proof {
                    assert(out@ =~= self.entries@.remove(i as int));
                    lemma_assoc_remove_match(self.entries@, key@, i as int);
                }
                ConfigMap { entries: out }
            },
        }
    }
}

/// A table of named profiles: each profile is a flat configuration that
/// must name its backend kind under the reserved `type` key.
pub struct ProfileTable {
    pub entries: Vec<(String, ConfigMap)>,
}

impl ProfileTable {
    /// Profile names are pairwise distinct and every profile is well formed.
    pub open spec fn wf(&self) -> bool {
        &&& assoc_wf(self.entries@)
        &&& forall|k: Seq<char>| (#[trigger] self.spec_get(k)) matches Some(p) ==> p.wf()
    }

    /// The profile registered under `name`.
    pub open spec fn spec_get(&self, name: Seq<char>) -> Option<ConfigMap> {
        assoc_find(self.entries@, name, 0)
    }

    /// An empty table.
    pub fn new() -> (r: ProfileTable)
        ensures
            r.wf(),
            forall|k: Seq<char>| r.spec_get(k) is None,
    {
        ProfileTable { entries: Vec::new() }
    }

    /// Register `profile` under `name`, replacing an existing profile of
    /// that name and leaving all other profiles unchanged.
    pub fn set(&mut self, name: String, profile: ConfigMap)
        requires
            old(self).wf(),
            profile.wf(),
        ensures
            final(self).wf(),
            final(self).spec_get(name@) == Some(profile),
            forall|k: Seq<char>| k != name@ ==> final(self).spec_get(k) == old(self).spec_get(k),
    {
        assoc_set(&mut self.entries, name, profile);
        proof {
            assert forall|k: Seq<char>| true implies ((#[trigger] self.spec_get(k)) matches Some(p)
                ==> p.wf()) by {
                if k != name@ {
                    assert(self.spec_get(k) == old(self).spec_get(k));
                }
            }
        }
    }

    /// Look up the profile registered under `name`.
    pub fn get(&self, name: &str) -> (r: Option<&ConfigMap>)
        ensures
            match r {
                Some(p) => self.spec_get(name@) == Some(*p),
                None => self.spec_get(name@) is None,
            },
    {
        assoc_get(&self.entries, name)
    }
}

} // verus!
