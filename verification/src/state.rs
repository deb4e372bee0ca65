use vstd::prelude::*;

use crate::error::ContractError;

verus! {

/// One registry binding: the cw20 token `token` is bound to the native
/// sub-denomination `denom` (the token's declared name).
pub struct Denom {
    pub token: String,
    pub denom: String,
}

/// The mathematical value of a binding: both strings as character
/// sequences.
pub struct DenomV {
    pub token: Seq<char>,
    pub denom: Seq<char>,
}

impl View for Denom {
    type V = DenomV;

    open spec fn view(&self) -> DenomV {
        DenomV { token: self.token@, denom: self.denom@ }
    }
}

/// The denom registry: a create-once map from a derived denomination name
/// to the binding stored under it. A binding is created lazily by the
/// first forward conversion of its token and is never updated or deleted,
/// so `create` is guarded and there is no setter.
pub struct DenomRegistry {
    entries: Vec<(String, Denom)>,
}

/// The map denoted by a sequence of keyed entries; a later entry would
/// win, though a well-formed registry never repeats a key.
spec fn map_of(s: Seq<(String, Denom)>) -> Map<Seq<char>, DenomV>
    decreases s.len(),
{
    if s.len() == 0 {
        Map::empty()
    } else {
        map_of(s.drop_last()).insert(s.last().0@, s.last().1@)
    }
}

proof fn lemma_map_of_contains(s: Seq<(String, Denom)>, k: Seq<char>)
    ensures
        map_of(s).contains_key(k) <==> exists|i: int| 0 <= i < s.len() && s[i].0@ == k,
    decreases s.len(),
{
    if s.len() > 0 {
        lemma_map_of_contains(s.drop_last(), k);
        assert(forall|i: int| 0 <= i < s.len() - 1 ==> s.drop_last()[i] == s[i]);
        if s.last().0@ == k {
            assert(s[s.len() - 1].0@ == k);
        } else {
            if exists|i: int| 0 <= i < s.len() && s[i].0@ == k {
                let i = choose|i: int| 0 <= i < s.len() && s[i].0@ == k;
                assert(i < s.len() - 1);
                assert(s.drop_last()[i].0@ == k);
            }
        }
    }
}

proof fn lemma_map_of_get(s: Seq<(String, Denom)>, i: int)
    requires
        0 <= i < s.len(),
        forall|j: int| i < j < s.len() ==> s[j].0@ != s[i].0@,
    ensures
        map_of(s).contains_key(s[i].0@),
        map_of(s)[s[i].0@] == s[i].1@,
    decreases s.len(),
{
    if i < s.len() - 1 {
        assert(forall|j: int| 0 <= j < s.len() - 1 ==> s.drop_last()[j] == s[j]);
        lemma_map_of_get(s.drop_last(), i);
        assert(s.last().0@ != s[i].0@);
    }
}

impl DenomRegistry {
    /// The registry as the map it denotes.
    pub closed spec fn as_map(self) -> Map<Seq<char>, DenomV> {
        map_of(self.entries@)
    }

    /// No key occurs twice.
    pub closed spec fn wf(self) -> bool {
        forall|i: int, j: int|
            0 <= i < j < self.entries@.len() ==> self.entries@[i].0@ != self.entries@[j].0@
    }

    /// An empty registry: no token has been converted yet.
    pub fn new() -> (r: DenomRegistry)
        ensures
            r.wf(),
            r.as_map() == Map::<Seq<char>, DenomV>::empty(),
    {
        let r = DenomRegistry { entries: Vec::new() };
        proof {
            assert(r.entries@.len() == 0);
        }
        r
    }

    /// Look a binding up by its derived denomination name.
    pub fn lookup(&self, key: &String) -> (r: Option<Denom>)
        requires
            self.wf(),
        ensures
            match r {
                Some(d) => self.as_map().contains_key(key@) && d@ == self.as_map()[key@],
                None => !self.as_map().contains_key(key@),
            },
    {
        let n = self.entries.len();
        let mut i: usize = 0;
        while i < n
            invariant
                n == self.entries@.len(),
                i <= n,
                self.wf(),
                forall|j: int| 0 <= j < i ==> self.entries@[j].0@ != key@,
            decreases n - i,
        {
            if self.entries[i].0 == *key {
                proof {
                    lemma_map_of_get(self.entries@, i as int);
                }
                let d = Denom {
                    token: self.entries[i].1.token.clone(),
                    denom: self.entries[i].1.denom.clone(),
                };
                return Some(d);
            }
            i += 1;
        }
        proof {
            lemma_map_of_contains(self.entries@, key@);
        }
        None
    }

    /// Create a binding. Fails with `AlreadyBound`, changing nothing, when
    /// the key is already bound: the create-once guarantee is structural.
    pub fn create(&mut self, key: String, record: Denom) -> (r: Result<(), ContractError>)
        requires
            old(self).wf(),
        ensures
            final(self).wf(),
            match r {
                Ok(_) => !old(self).as_map().contains_key(key@) && final(self).as_map()
                    == old(self).as_map().insert(key@, record@),
                Err(e) => old(self).as_map().contains_key(key@) && e
                    == ContractError::AlreadyBound && *final(self) == *old(self),
            },
    {
        let n = self.entries.len();
        let mut i: usize = 0;
        while i < n
            invariant
                n == self.entries@.len(),
                i <= n,
                self.wf(),
                forall|j: int| 0 <= j < i ==> self.entries@[j].0@ != key@,
            decreases n - i,
        {
            if self.entries[i].0 == key {
                proof {
                    lemma_map_of_contains(self.entries@, key@);
                }
                return Err(ContractError::AlreadyBound);
            }
            i += 1;
        }
        proof {
            lemma_map_of_contains(self.entries@, key@);
        }
        let ghost before = self.entries@;
        self.entries.push((key, record));
        proof {
            assert(self.entries@.drop_last() =~= before);
        }
        Ok(())
    }
}

} // verus!
