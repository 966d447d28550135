use vstd::prelude::*;

verus! {

/// The module registry: which handler factory serves which event key.
/// A later registration under a key replaces the earlier one.
pub struct ModuleMap<M> {
    entries: Vec<(String, M)>,
}

/// The factory registered last under `key` among `s`.
pub open spec fn lookup<M>(s: Seq<(String, M)>, key: Seq<char>) -> Option<M>
    decreases s.len(),
{
    if s.len() == 0 {
        None
    } else if s.last().0@ == key {
        Some(s.last().1)
    } else {
        lookup(s.drop_last(), key)
    }
}

impl<M> ModuleMap<M> {
    /// The factory that serves `key`, if any.
    pub closed spec fn spec_get(&self, key: Seq<char>) -> Option<M> {
        lookup(self.entries@, key)
    }

    pub fn new() -> (r: Self)
        ensures
            forall|k: Seq<char>| r.spec_get(k) is None,
    {
        ModuleMap { entries: Vec::new() }
    }

    /// Registers `module` under `key`.
    pub fn insert(&mut self, key: String, module: M)
        ensures
            final(self).spec_get(key@) == Some(module),
            forall|k: Seq<char>| k != key@ ==> final(self).spec_get(k) == old(self).spec_get(k),
    {
        let ghost k0 = key@;
        self.entries.push((key, module));
        assert(self.entries@.drop_last() =~= old(self).entries@);
        assert(self.entries@.last().0@ == k0);
    }

    /// The factory that serves `key`, if any.
    pub fn get(&self, key: &String) -> (r: Option<&M>)
        ensures
            match r {
                Some(m) => self.spec_get(key@) == Some(*m),
                None => self.spec_get(key@) is None,
            },
    {
        let mut i: usize = self.entries.len();
        assert(self.entries@.subrange(0, i as int) =~= self.entries@);
        while i > 0
            invariant
                i <= self.entries@.len(),
                lookup(self.entries@, key@) == lookup(self.entries@.subrange(0, i as int), key@),
            decreases i,
        {
            let ghost s = self.entries@.subrange(0, i as int);
            assert(s.drop_last() =~= self.entries@.subrange(0, i - 1));
            if self.entries[i - 1].0 == *key {
                return Some(&self.entries[i - 1].1);
            }
            i = i - 1;
        }
        None
    }
}

} // verus!
