//! A per-player balance sheet: the resources or the health pool of each
//! player that has one.

use linera_base::identifiers::Owner;
use vstd::prelude::*;

use crate::identity::same_owner;


verus! {

/// Balances by player.  Seen from outside it is a finite map from players
/// to amounts; a player without a balance is absent from it.
#[derive(Debug)]
pub struct Ledger {
    entries: Vec<(Owner, u64)>,
}

/// `entries` lists the map `balances`: each player of the map once, with
/// their amount, and nothing else.
pub open spec fn lists_balances(entries: Seq<(Owner, u64)>, balances: Map<Owner, u64>) -> bool {
    &&& forall|i: int|
        0 <= i < entries.len() ==> balances.dom().contains((#[trigger] entries[i]).0)
            && balances[entries[i].0] == entries[i].1
    &&& forall|p: Owner| #[trigger]
        balances.dom().contains(p) ==> exists|i: int|
            0 <= i < entries.len() && (#[trigger] entries[i]).0 == p
    &&& forall|i: int, j: int|
        0 <= i < j < entries.len() ==> (#[trigger] entries[i]).0 != (#[trigger] entries[j]).0
}

impl View for Ledger {
    type V = Map<Owner, u64>;

    closed spec fn view(&self) -> Map<Owner, u64> {
        Map::new(
            |p: Owner| self.holds(p),
            |p: Owner| self.entries@[self.slot(p)].1,
        )
    }
}

impl Ledger {
    /// No player has two entries.
    #[verifier::type_invariant]
    spec fn keys_distinct(self) -> bool {
        forall|i: int, j: int|
            0 <= i < j < self.entries@.len() ==> (#[trigger] self.entries@[i]).0 != (
            #[trigger] self.entries@[j]).0
    }

    spec fn holds(self, p: Owner) -> bool {
        exists|i: int| 0 <= i < self.entries@.len() && (#[trigger] self.entries@[i]).0 == p
    }

    spec fn slot(self, p: Owner) -> int {
        choose|i: int| 0 <= i < self.entries@.len() && (#[trigger] self.entries@[i]).0 == p
    }

    /// A ledger without balances.
    pub fn new() -> (ledger: Ledger)
        ensures
            ledger@ == Map::<Owner, u64>::empty(),
    {
        let ledger = Ledger { entries: Vec::new() };
        assert(ledger@ =~= Map::<Owner, u64>::empty());
        ledger
    }

    fn find(&self, player: &Owner) -> (found: Option<usize>)
        ensures
            match found {
                Some(i) => i < self.entries@.len() && self.entries@[i as int].0 == *player
                    && self.holds(*player) && self.slot(*player) == i,
                None => !self.holds(*player),
            },
    {
        proof {
            use_type_invariant(self);
        }
        let mut i: usize = 0;
        while i < self.entries.len()
            invariant
                i <= self.entries@.len(),
                self.keys_distinct(),
                forall|j: int| 0 <= j < i ==> (#[trigger] self.entries@[j]).0 != *player,
            decreases self.entries@.len() - i,
        {
            if same_owner(&self.entries[i].0, player) {
                return Some(i);
            }
            i += 1;
        }
        None
    }

    /// The balance of `player`, if they have one.
    pub fn get(&self, player: &Owner) -> (amount: Option<u64>)
        ensures
            amount == if self@.dom().contains(*player) {
                Some(self@[*player])
            } else {
                None
            },
    {
        match self.find(player) {
            Some(i) => Some(self.entries[i].1),
            None => None,
        }
    }

    /// Sets the balance of `player` to `amount`, whether or not they had
    /// one; every other balance stays.
    pub fn insert(&mut self, player: Owner, amount: u64)
        ensures
            final(self)@ == old(self)@.insert(player, amount),
    {
        proof {
            use_type_invariant(&*self);
        }
        let ghost before = *self;
        let found = self.find(&player);
        let mut entries: Vec<(Owner, u64)> = Vec::new();
        core::mem::swap(&mut self.entries, &mut entries);
        match found {
            Some(i) => {
                entries.set(i, (player, amount));
                self.entries = entries;
                assert forall|p: Owner| self.holds(p) <==> before.holds(p) by {
                    if before.holds(p) {
                        let k = before.slot(p);
                        assert(self.entries@[k].0 == p);
                    }
                    if self.holds(p) {
                        let k = self.slot(p);
                        assert(before.entries@[k].0 == p);
                    }
                }
                assert forall|p: Owner| self.holds(p) implies self@[p] == before@.insert(
                    player,
                    amount,
                )[p] by {
                    let k = self.slot(p);
                    assert(before.entries@[k].0 == p);
                    assert(before.slot(p) == k);
                }
            },
            None => {
                entries.push((player, amount));
                self.entries = entries;
                assert(self.entries@[before.entries@.len() as int].0 == player);
                assert forall|p: Owner| self.holds(p) <==> (before.holds(p) || p == player) by {
                    if before.holds(p) {
                        let k = before.slot(p);
                        assert(self.entries@[k].0 == p);
                    }
                    if self.holds(p) {
                        let k = self.slot(p);
                        if k < before.entries@.len() {
                            assert(before.entries@[k].0 == p);
                        }
                    }
                }
                assert forall|p: Owner| self.holds(p) implies self@[p] == before@.insert(
                    player,
                    amount,
                )[p] by {
                    let k = self.slot(p);
                    if k < before.entries@.len() {
                        assert(before.entries@[k].0 == p);
                        assert(before.slot(p) == k);
                    }
                }
            },
        }
        assert(self@ =~= before@.insert(player, amount));
    }

    /// Every balance, each player once, in no particular order.
    pub fn entries(&self) -> (listed: Vec<(Owner, u64)>)
        ensures
            lists_balances(listed@, self@),
    {
        proof {
            use_type_invariant(self);
        }
        let mut listed: Vec<(Owner, u64)> = Vec::new();
        let mut i: usize = 0;
        while i < self.entries.len()
            invariant
                i <= self.entries@.len(),
                listed@ == self.entries@.take(i as int),
            decreases self.entries@.len() - i,
        {
            listed.push(self.entries[i]);
            assert(self.entries@.take(i as int + 1) =~= self.entries@.take(i as int).push(
                self.entries@[i as int],
            ));
            i += 1;
        }
        assert(listed@ =~= self.entries@);
        assert forall|k: int| 0 <= k < listed@.len() implies self@.dom().contains(
            (#[trigger] listed@[k]).0,
        ) && self@[listed@[k].0] == listed@[k].1 by {
            let p = listed@[k].0;
            assert(self.holds(p));
            assert(self.slot(p) == k);
        }
        listed
    }
}

} // verus!
