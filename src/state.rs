//! The persisted state: one record for each live swap, held in an arena keyed
//! by the record's derived address. The record is also the vault that holds
//! the swapped amount and the storage deposit until the swap closes.

use vstd::prelude::*;

verus! {

/// The state of one live swap. Every field is written once, at initiation.
#[derive(Clone, Copy, Debug)]
pub struct SwapAccount {
    /// The party that locked the funds and may take them back.
    pub initiator: [u8; 32],
    /// The party that may claim the funds by revealing the secret.
    pub redeemer: [u8; 32],
    /// The digest of the secret.
    pub secret_hash: [u8; 32],
    /// The slot from which a plain refund is allowed.
    pub expiry_slot: u64,
    /// The swapped amount, held by the record itself.
    pub amount_lamports: u64,
    /// The storage deposit that the initiator paid to create the record.
    pub rent_lamports: u64,
}

/// What the store holds: the live record at each address.
pub type SwapMap = Map<Seq<u8>, SwapAccount>;

struct Entry {
    address: [u8; 32],
    account: SwapAccount,
}

/// The records of all live swaps of one program, each at its own address.
pub struct SwapBook {
    program_id: [u8; 32],
    entries: Vec<Entry>,
}

impl View for SwapBook {
    type V = SwapMap;

    /// The live record at each address.
    closed spec fn view(&self) -> SwapMap {
        Map::new(
            |a: Seq<u8>| exists|i: int| self.holds_at(i, a),
            |a: Seq<u8>| self.entries@[choose|i: int| self.holds_at(i, a)].account,
        )
    }
}

impl SwapBook {
    spec fn holds_at(&self, i: int, a: Seq<u8>) -> bool {
        0 <= i < self.entries@.len() && self.entries@[i].address@ == a
    }

    /// The id of the program whose records these are.
    pub closed spec fn spec_program_id(&self) -> Seq<u8> {
        self.program_id@
    }

    /// No two records share an address.
    pub closed spec fn wf(&self) -> bool {
        forall|i: int, j: int|
            0 <= i < self.entries@.len() && 0 <= j < self.entries@.len() && i != j
                ==> self.entries@[i].address@ != self.entries@[j].address@
    }

    proof fn lemma_entry(&self, i: int)
        requires
            self.wf(),
            0 <= i < self.entries@.len(),
        ensures
            self.view().contains_key(self.entries@[i].address@),
            self.view()[self.entries@[i].address@] == self.entries@[i].account,
    {
        let a = self.entries@[i].address@;
        assert(self.holds_at(i, a));
        let j = choose|j: int| self.holds_at(j, a);
        assert(j == i);
    }

    /// An empty store for the records of `program_id`.
    pub fn new(program_id: [u8; 32]) -> (r: Self)
        ensures
            r.wf(),
            r.view() == Map::<Seq<u8>, SwapAccount>::empty(),
            r.spec_program_id() == program_id@,
    {
        let r = SwapBook { program_id, entries: Vec::new() };
        assert(r.view() =~= Map::<Seq<u8>, SwapAccount>::empty());
        r
    }

    /// The id of the program whose records these are.
    pub fn program_id(&self) -> (r: [u8; 32])
        ensures
            r@ == self.spec_program_id(),
    {
        self.program_id
    }

    fn position(&self, address: &[u8; 32]) -> (r: Option<usize>)
        requires
            self.wf(),
        ensures
            r matches Some(i) ==> i < self.entries@.len() && self.entries@[i as int].address@ == address@,
            r is None ==> !self.view().contains_key(address@),
    {
        let mut i: usize = 0;
        while i < self.entries.len()
            invariant
                self.wf(),
                i <= self.entries@.len(),
                forall|j: int| 0 <= j < i ==> self.entries@[j].address@ != address@,
            decreases self.entries@.len() - i,
        {
            if crate::hashlock::bytes_eq(&self.entries[i].address, address) {
                return Some(i);
            }
            i = i + 1;
        }
        None
    }

    /// The live record at `address`, if there is one.
    pub fn get(&self, address: &[u8; 32]) -> (r: Option<SwapAccount>)
        requires
            self.wf(),
        ensures
            r == (if self.view().contains_key(address@) { Some(self.view()[address@]) } else { None::<SwapAccount> }),
    {
        match self.position(address) {
            Some(i) => {
                proof { self.lemma_entry(i as int); }
                Some(self.entries[i].account)
            },
            None => None,
        }
    }

    /// Whether a swap is live at `address`.
    pub fn contains(&self, address: &[u8; 32]) -> (r: bool)
        requires
            self.wf(),
        ensures
            r == self.view().contains_key(address@),
    {
        match self.position(address) {
            Some(i) => {
                proof { self.lemma_entry(i as int); }
                true
            },
            None => false,
        }
    }

    /// Stores a new record at a free address.
    pub fn insert(&mut self, address: [u8; 32], account: SwapAccount)
        requires
            old(self).wf(),
            !old(self).view().contains_key(address@),
        ensures
            final(self).wf(),
            final(self).view() == old(self).view().insert(address@, account),
            final(self).spec_program_id() == old(self).spec_program_id(),
    {
        let ghost pre = *self;
        self.entries.push(Entry { address, account });
        let ghost n = pre.entries@.len();
        assert forall|j: int| 0 <= j < n implies pre.entries@[j].address@ != address@ by {
            if pre.entries@[j].address@ == address@ {
                assert(pre.holds_at(j, address@));
            }
        }
        assert forall|a: Seq<u8>| #[trigger] self.view().contains_key(a) == pre.view().insert(address@, account).contains_key(a) by {
            if a != address@ {
                if self.view().contains_key(a) {
                    let i = choose|i: int| self.holds_at(i, a);
                    assert(pre.holds_at(i, a));
                }
                if pre.view().contains_key(a) {
                    let i = choose|i: int| pre.holds_at(i, a);
                    assert(self.holds_at(i, a));
                }
            } else {
                assert(self.holds_at(n as int, a));
            }
        }
        assert forall|a: Seq<u8>| #[trigger] self.view().contains_key(a) implies self.view()[a] == pre.view().insert(address@, account)[a] by {
            let i = choose|i: int| self.holds_at(i, a);
            self.lemma_entry(i);
            if a != address@ {
                pre.lemma_entry(i);
            }
        }
        assert(self.view() =~= pre.view().insert(address@, account));
    }

    /// Deletes the record at a live address and hands it back.
    pub fn remove(&mut self, address: &[u8; 32]) -> (r: SwapAccount)
        requires
            old(self).wf(),
            old(self).view().contains_key(address@),
        ensures
            final(self).wf(),
            r == old(self).view()[address@],
            final(self).view() == old(self).view().remove(address@),
            final(self).spec_program_id() == old(self).spec_program_id(),
    {
        let ghost pre = *self;
        let i = match self.position(address) {
            Some(i) => i,
            None => { proof { assert(false); } 0 },
        };
        proof { pre.lemma_entry(i as int); }
        let e = self.entries.remove(i);
        assert forall|a: Seq<u8>| #[trigger] self.view().contains_key(a) == pre.view().remove(address@).contains_key(a) by {
            if self.view().contains_key(a) {
                let k = choose|k: int| self.holds_at(k, a);
                if k < i {
                    assert(pre.holds_at(k, a));
                } else {
                    assert(pre.holds_at(k + 1, a));
                }
            }
            if pre.view().remove(address@).contains_key(a) {
                let k = choose|k: int| pre.holds_at(k, a);
                if k < i {
                    assert(self.holds_at(k, a));
                } else {
                    assert(self.holds_at(k - 1, a));
                }
            }
        }
        assert forall|a: Seq<u8>| #[trigger] self.view().contains_key(a) implies self.view()[a] == pre.view().remove(address@)[a] by {
            let k = choose|k: int| self.holds_at(k, a);
            self.lemma_entry(k);
            if k < i {
                pre.lemma_entry(k);
            } else {
                pre.lemma_entry(k + 1);
            }
        }
        assert(self.view() =~= pre.view().remove(address@));
        e.account
    }
}

} // verus!
