use crate::assoc::{
    assoc, assoc_map, lemma_assoc_some_index, lemma_assoc_absent, lemma_assoc_found, lemma_assoc_map_push, lemma_assoc_map_update,
};
use crate::error::Error;
use vstd::prelude::*;
use vstd::string::*;

verus! {

/// The balance record of one (channel, denomination) pair.
#[derive(Debug, Clone, Copy, PartialEq, Eq, Structural, Default)]
pub struct ChannelState {
    /// value currently in flight or represented by live vouchers
    pub outstanding: u128,
    /// value ever sent over the channel
    pub total_sent: u128,
}

/// The record of a pair that was never touched.
pub open spec fn zero_state() -> ChannelState {
    ChannelState { outstanding: 0, total_sent: 0 }
}

/// The record of `(channel, denom)` in a ledger view; zero when absent.
pub open spec fn state_of(
    m: Map<(Seq<char>, Seq<char>), ChannelState>,
    channel: Seq<char>,
    denom: Seq<char>,
) -> ChannelState {
    if m.contains_key((channel, denom)) {
        m[(channel, denom)]
    } else {
        zero_state()
    }
}

/// No record has more outstanding than was ever sent.
pub open spec fn ledger_invariant(m: Map<(Seq<char>, Seq<char>), ChannelState>) -> bool {
    forall|k: (Seq<char>, Seq<char>)| #[trigger]
        m.contains_key(k) ==> m[k].outstanding <= m[k].total_sent
}

/// The ledger after `increase`, or `None` when the lifetime total would
/// overflow.
pub open spec fn increased(
    m: Map<(Seq<char>, Seq<char>), ChannelState>,
    channel: Seq<char>,
    denom: Seq<char>,
    amount: u128,
) -> Option<Map<(Seq<char>, Seq<char>), ChannelState>> {
    let s = state_of(m, channel, denom);
    if s.total_sent + amount > u128::MAX {
        None
    } else {
        Some(
            m.insert(
                (channel, denom),
                ChannelState {
                    outstanding: (s.outstanding + amount) as u128,
                    total_sent: (s.total_sent + amount) as u128,
                },
            ),
        )
    }
}

/// The ledger after `reduce`, or `None` when less than `amount` is
/// outstanding.
pub open spec fn reduced(
    m: Map<(Seq<char>, Seq<char>), ChannelState>,
    channel: Seq<char>,
    denom: Seq<char>,
    amount: u128,
) -> Option<Map<(Seq<char>, Seq<char>), ChannelState>> {
    let s = state_of(m, channel, denom);
    if amount > s.outstanding {
        None
    } else {
        Some(
            m.insert(
                (channel, denom),
                ChannelState { outstanding: (s.outstanding - amount) as u128, total_sent: s.total_sent },
            ),
        )
    }
}

/// The ledger after `undo_reduce`, or `None` when the record would hold
/// more outstanding than was ever sent.
pub open spec fn undo_reduced(
    m: Map<(Seq<char>, Seq<char>), ChannelState>,
    channel: Seq<char>,
    denom: Seq<char>,
    amount: u128,
) -> Option<Map<(Seq<char>, Seq<char>), ChannelState>> {
    let s = state_of(m, channel, denom);
    if s.outstanding + amount > s.total_sent {
        None
    } else {
        Some(
            m.insert(
                (channel, denom),
                ChannelState { outstanding: (s.outstanding + amount) as u128, total_sent: s.total_sent },
            ),
        )
    }
}

/// Undoing a reduction with the same arguments always succeeds and gives
/// every (channel, denomination) pair the record it had before the reduction.
pub proof fn law_undo_reduce_inverts_reduce(
    m: Map<(Seq<char>, Seq<char>), ChannelState>,
    channel: Seq<char>,
    denom: Seq<char>,
    amount: u128,
)
    requires
        ledger_invariant(m),
        reduced(m, channel, denom, amount) is Some,
    ensures
        undo_reduced(reduced(m, channel, denom, amount)->0, channel, denom, amount) is Some,
        forall|c: Seq<char>, d: Seq<char>|
            #[trigger] state_of(
                undo_reduced(reduced(m, channel, denom, amount)->0, channel, denom, amount)->0,
                c,
                d,
            ) == state_of(m, c, d),
{
}

/// Taking back what a send added always succeeds: the amount leaves what
/// is outstanding again while the lifetime total keeps it, and every other
/// pair keeps its record.
pub proof fn law_refund_cancels_send(
    m: Map<(Seq<char>, Seq<char>), ChannelState>,
    channel: Seq<char>,
    denom: Seq<char>,
    amount: u128,
)
    requires
        ledger_invariant(m),
        increased(m, channel, denom, amount) is Some,
    ensures
        reduced(increased(m, channel, denom, amount)->0, channel, denom, amount) is Some,
        state_of(reduced(increased(m, channel, denom, amount)->0, channel, denom, amount)->0, channel, denom)
            == (ChannelState {
            outstanding: state_of(m, channel, denom).outstanding,
            total_sent: (state_of(m, channel, denom).total_sent + amount) as u128,
        }),
        forall|c: Seq<char>, d: Seq<char>|
            (c, d) != (channel, denom) ==> #[trigger] state_of(
                reduced(increased(m, channel, denom, amount)->0, channel, denom, amount)->0,
                c,
                d,
            ) == state_of(m, c, d),
{
}

struct LedgerEntry {
    channel: String,
    denom: String,
    state: ChannelState,
}

spec fn entry_pair(e: LedgerEntry) -> ((Seq<char>, Seq<char>), ChannelState) {
    ((e.channel@, e.denom@), e.state)
}

/// The balance ledger: one record per (channel, denomination) pair,
/// created as zero on first touch and never removed.
pub struct ChannelLedger {
    entries: Vec<LedgerEntry>,
}

impl ChannelLedger {
    spec fn pairs(&self) -> Seq<((Seq<char>, Seq<char>), ChannelState)> {
        self.entries@.map_values(|e: LedgerEntry| entry_pair(e))
    }
}

impl View for ChannelLedger {
    type V = Map<(Seq<char>, Seq<char>), ChannelState>;

    closed spec fn view(&self) -> Map<(Seq<char>, Seq<char>), ChannelState> {
        assoc_map(self.pairs())
    }
}

impl ChannelLedger {
    /// Every record keeps `outstanding <= total_sent`.
    pub open spec fn wf(&self) -> bool {
        ledger_invariant(self@) && self.unique()
    }

    /// Each pair has one record.
    pub closed spec fn unique(&self) -> bool {
        forall|i: int, j: int|
            0 <= i < j < self.pairs().len() ==> self.pairs()[i].0 != self.pairs()[j].0
    }

    /// The record of `(channel, denom)`, zero when absent.
    pub open spec fn record(&self, channel: Seq<char>, denom: Seq<char>) -> ChannelState {
        state_of(self@, channel, denom)
    }

    /// An empty ledger.
    pub fn new() -> (r: ChannelLedger)
        ensures
            r@ == Map::<(Seq<char>, Seq<char>), ChannelState>::empty(),
            r.wf(),
    {
        let r = ChannelLedger { entries: Vec::new() };
        assert(r@ =~= Map::<(Seq<char>, Seq<char>), ChannelState>::empty());
        r
    }

    /// The index of the binding of `(channel, denom)` that wins, if any.
    fn find(&self, channel: &String, denom: &String) -> (r: Option<usize>)
        ensures
            match r {
                Some(i) => {
                    &&& i < self.pairs().len()
                    &&& self.pairs()[i as int].0 == (channel@, denom@)
                    &&& forall|j: int|
                        i < j < self.pairs().len() ==> self.pairs()[j].0 != (channel@, denom@)
                },
                None => forall|j: int|
                    0 <= j < self.pairs().len() ==> self.pairs()[j].0 != (channel@, denom@),
            },
    {
        let mut i: usize = self.entries.len();
        while i > 0
            invariant
                i <= self.entries.len(),
                forall|j: int|
                    i <= j < self.pairs().len() ==> self.pairs()[j].0 != (channel@, denom@),
            decreases i,
        {
            i = i - 1;
            let e = &self.entries[i];
            if e.channel.eq(channel) && e.denom.eq(denom) {
                return Some(i);
            }
        }
        None
    }

    /// The record of `(channel, denom)`, zero when absent.
    pub fn state(&self, channel: &str, denom: &str) -> (r: ChannelState)
        ensures
            r == self.record(channel@, denom@),
    {
        let c = String::from_str(channel);
        let d = String::from_str(denom);
        match self.find(&c, &d) {
            Some(i) => {
                proof {
                    lemma_assoc_found(self.pairs(), i as int, (c@, d@));
                }
                self.entries[i].state
            },
            None => {
                proof {
                    lemma_assoc_absent(self.pairs(), (c@, d@));
                }
                ChannelState { outstanding: 0, total_sent: 0 }
            },
        }
    }

    /// Binds `(channel, denom)` to `state`.
    fn put(&mut self, channel: String, denom: String, state: ChannelState)
        requires
            old(self).unique(),
        ensures
            final(self)@ == old(self)@.insert((channel@, denom@), state),
            final(self).unique(),
    {
        let ghost key = (channel@, denom@);
        let ghost old_pairs = self.pairs();
        match self.find(&channel, &denom) {
            Some(i) => {
                let e = LedgerEntry { channel, denom, state };
                proof {
                    lemma_assoc_map_update(old_pairs, i as int, entry_pair(e));
                }
                self.entries.set(i, e);
                assert(self.pairs() =~= old_pairs.update(i as int, entry_pair(e)));
            },
            None => {
                let e = LedgerEntry { channel, denom, state };
                proof {
                    lemma_assoc_map_push(old_pairs, entry_pair(e));
                }
                self.entries.push(e);
                assert(self.pairs() =~= old_pairs.push(entry_pair(e)));
            },
        }
    }

    /// Records value sent out over `channel`: both counters grow by `amount`.
    /// Fails, changing nothing, when the lifetime total would overflow.
    pub fn increase(&mut self, channel: &str, denom: &str, amount: u128) -> (r: Result<(), Error>)
        requires
            old(self).wf(),
        ensures
            final(self).wf(),
            match increased(old(self)@, channel@, denom@, amount) {
                None => r == Err::<(), Error>(Error::AmountOverflow {  }) && final(self)@ == old(self)@,
                Some(m) => r == Ok::<(), Error>(()) && final(self)@ == m,
            },
    {
        let s = self.state(channel, denom);
        if s.total_sent > u128::MAX - amount {
            return Err(Error::AmountOverflow {  });
        }
        let next = ChannelState {
            outstanding: s.outstanding + amount,
            total_sent: s.total_sent + amount,
        };
        self.put(String::from_str(channel), String::from_str(denom), next);
        Ok(())
    }

    /// Takes `amount` out of what is outstanding on `channel`. Fails with
    /// `InsufficientFunds`, changing nothing, when less is outstanding.
    pub fn reduce(&mut self, channel: &str, denom: &str, amount: u128) -> (r: Result<(), Error>)
        requires
            old(self).wf(),
        ensures
            final(self).wf(),
            match reduced(old(self)@, channel@, denom@, amount) {
                None => r == Err::<(), Error>(Error::InsufficientFunds {  }) && final(self)@ == old(self)@,
                Some(m) => r == Ok::<(), Error>(()) && final(self)@ == m,
            },
    {
        let s = self.state(channel, denom);
        if amount > s.outstanding {
            return Err(Error::InsufficientFunds {  });
        }
        let next = ChannelState { outstanding: s.outstanding - amount, total_sent: s.total_sent };
        self.put(String::from_str(channel), String::from_str(denom), next);
        Ok(())
    }

    /// Puts `amount` back into what is outstanding, leaving the lifetime total
    /// alone: the inverse of `reduce`. Fails, changing nothing, when the
    /// record would then hold more outstanding than was ever sent.
    pub fn undo_reduce(&mut self, channel: &str, denom: &str, amount: u128) -> (r: Result<(), Error>)
        requires
            old(self).wf(),
        ensures
            final(self).wf(),
            match undo_reduced(old(self)@, channel@, denom@, amount) {
                None => r == Err::<(), Error>(Error::UndoReduceChannelBalanceError {  }) && final(self)@ == old(self)@,
                Some(m) => r == Ok::<(), Error>(()) && final(self)@ == m,
            },
    {
        let s = self.state(channel, denom);
        if amount > s.total_sent - s.outstanding {
            return Err(Error::UndoReduceChannelBalanceError {  });
        }
        let next = ChannelState { outstanding: s.outstanding + amount, total_sent: s.total_sent };
        self.put(String::from_str(channel), String::from_str(denom), next);
        Ok(())
    }

    /// The denominations recorded for `channel`, each once, with their records.
    pub fn records_of(&self, channel: &str) -> (r: Vec<(String, ChannelState)>)
        requires
            self.wf(),
        ensures
            forall|k: int|
                0 <= k < r@.len() ==> self@.contains_key((channel@, #[trigger] r@[k].0@))
                    && self@[(channel@, r@[k].0@)] == r@[k].1,
            forall|d: Seq<char>|
                #[trigger] self@.contains_key((channel@, d)) ==> exists|k: int|
                    0 <= k < r@.len() && #[trigger] r@[k].0@ == d,
            forall|k1: int, k2: int| 0 <= k1 < k2 < r@.len() ==> r@[k1].0@ != r@[k2].0@,
    {
        let c = String::from_str(channel);
        let ghost pairs = self.pairs();
        let mut r: Vec<(String, ChannelState)> = Vec::new();
        let ghost mut idx: Seq<int> = Seq::empty();
        let mut i: usize = 0;
        while i < self.entries.len()
            invariant
                pairs == self.pairs(),
                self.wf(),
                c@ == channel@,
                i <= self.entries.len(),
                idx.len() == r@.len(),
                forall|k: int|
                    0 <= k < idx.len() ==> 0 <= #[trigger] idx[k] < i && pairs[idx[k]] == ((
                        channel@,
                        r@[k].0@,
                    ), r@[k].1),
                forall|k1: int, k2: int| 0 <= k1 < k2 < idx.len() ==> idx[k1] < idx[k2],
                forall|j: int|
                    0 <= j < i && (#[trigger] pairs[j]).0.0 == channel@ ==> exists|k: int|
                        0 <= k < r@.len() && #[trigger] r@[k].0@ == pairs[j].0.1,
            decreases self.entries.len() - i,
        {
            let e = &self.entries[i];
            if e.channel.eq(&c) {
                let ghost old_r = r@;
                r.push((e.denom.clone(), e.state));
                proof {
                    idx = idx.push(i as int);
                    assert forall|j: int|
                        0 <= j < i + 1 && (#[trigger] pairs[j]).0.0 == channel@ implies exists|k: int|
                        0 <= k < r@.len() && #[trigger] r@[k].0@ == pairs[j].0.1 by {
                        if j == i {
                            assert(r@[r@.len() - 1].0@ == pairs[j].0.1);
                        } else {
                            let k = choose|k: int| 0 <= k < old_r.len() && #[trigger] old_r[k].0@ == pairs[j].0.1;
                            assert(r@[k] == old_r[k]);
                        }
                    }
                }
            }
            i = i + 1;
        }
        proof {
            assert forall|k: int| 0 <= k < r@.len() implies self@.contains_key((channel@, #[trigger] r@[k].0@))
                && self@[(channel@, r@[k].0@)] == r@[k].1 by {
                lemma_assoc_found(pairs, idx[k], (channel@, r@[k].0@));
            }
            assert forall|d: Seq<char>| #[trigger] self@.contains_key((channel@, d)) implies exists|k: int|
                0 <= k < r@.len() && #[trigger] r@[k].0@ == d by {
                let j = lemma_assoc_some_index(pairs, (channel@, d));
                assert(pairs[j].0.0 == channel@);
            }
            assert forall|k1: int, k2: int| 0 <= k1 < k2 < r@.len() implies r@[k1].0@ != r@[k2].0@ by {
                assert(pairs[idx[k1]].0 != pairs[idx[k2]].0);
            }
        }
        r
    }
}

} // verus!
