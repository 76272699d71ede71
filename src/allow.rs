use crate::assoc::{
    assoc_map, lemma_assoc_absent, lemma_assoc_found, lemma_assoc_map_push, lemma_assoc_map_update,
};
use vstd::prelude::*;
use vstd::string::*;

verus! {

/// A cw20 contract on the allow list, with the gas limit its transfers run with.
#[derive(Debug, Clone, PartialEq, Eq)]
pub struct AllowedInfo {
    pub contract: String,
    pub gas_limit: Option<u64>,
}

spec fn allowed_pair(a: AllowedInfo) -> (Seq<char>, Option<u64>) {
    (a.contract@, a.gas_limit)
}

/// Setting `new` as the limit of a contract whose entry is `old` would lower
/// it: no limit counts as the highest.
pub open spec fn lowers_gas(old: Option<Option<u64>>, new: Option<u64>) -> bool {
    match old {
        Some(Some(o)) => new is Some && new->0 < o,
        Some(None) => new is Some,
        None => false,
    }
}

/// The cw20 contracts that may be sent, by address, with their gas limits.
pub struct AllowList {
    entries: Vec<AllowedInfo>,
}

impl AllowList {
    spec fn pairs(&self) -> Seq<(Seq<char>, Option<u64>)> {
        self.entries@.map_values(|a: AllowedInfo| allowed_pair(a))
    }
}

impl View for AllowList {
    type V = Map<Seq<char>, Option<u64>>;

    closed spec fn view(&self) -> Map<Seq<char>, Option<u64>> {
        assoc_map(self.pairs())
    }
}

impl AllowList {
    /// An empty allow list.
    pub fn new() -> (r: AllowList)
        ensures
            r@ == Map::<Seq<char>, Option<u64>>::empty(),
    {
        let r = AllowList { entries: Vec::new() };
        assert(r@ =~= Map::<Seq<char>, Option<u64>>::empty());
        r
    }

    fn find(&self, contract: &String) -> (r: Option<usize>)
        ensures
            match r {
                Some(i) => {
                    &&& i < self.pairs().len()
                    &&& self.pairs()[i as int].0 == contract@
                    &&& forall|j: int|
                        i < j < self.pairs().len() ==> self.pairs()[j].0 != contract@
                },
                None => forall|j: int|
                    0 <= j < self.pairs().len() ==> self.pairs()[j].0 != contract@,
            },
    {
        let mut i: usize = self.entries.len();
        while i > 0
            invariant
                i <= self.entries.len(),
                forall|j: int| i <= j < self.pairs().len() ==> self.pairs()[j].0 != contract@,
            decreases i,
        {
            i = i - 1;
            if self.entries[i].contract.eq(contract) {
                return Some(i);
            }
        }
        None
    }

    /// The entry of `contract`: `None` when it is not on the list, else its
    /// gas limit.
    pub fn get(&self, contract: &str) -> (r: Option<Option<u64>>)
        ensures
            r == (if self@.contains_key(contract@) {
                Some(self@[contract@])
            } else {
                None
            }),
    {
        let key = String::from_str(contract);
        match self.find(&key) {
            Some(i) => {
                proof {
                    lemma_assoc_found(self.pairs(), i as int, key@);
                }
                Some(self.entries[i].gas_limit)
            },
            None => {
                proof {
                    lemma_assoc_absent(self.pairs(), key@);
                }
                None
            },
        }
    }

    /// Sets the entry of `contract`.
    pub fn put(&mut self, contract: String, gas_limit: Option<u64>)
        ensures
            final(self)@ == old(self)@.insert(contract@, gas_limit),
    {
        let ghost old_pairs = self.pairs();
        let ghost p = (contract@, gas_limit);
        match self.find(&contract) {
            Some(i) => {
                proof {
                    lemma_assoc_map_update(old_pairs, i as int, p);
                }
                self.entries.set(i, AllowedInfo { contract, gas_limit });
                assert(self.pairs() =~= old_pairs.update(i as int, p));
            },
            None => {
                proof {
                    lemma_assoc_map_push(old_pairs, p);
                }
                self.entries.push(AllowedInfo { contract, gas_limit });
                assert(self.pairs() =~= old_pairs.push(p));
            },
        }
    }
}

} // verus!
