use crate::model::Receipt;
use crate::model::Recipient;
use crate::model::RecipientFields;
use crate::state::ReceiptState;
use vstd::prelude::*;

verus! {

/// No two receipts share an id.
pub open spec fn receipt_ids_unique(s: Seq<Receipt>) -> bool {
    forall|i: int, j: int| 0 <= i < j < s.len() ==> s[i].id != s[j].id
}

/// Some receipt carries the given id.
pub open spec fn has_receipt(s: Seq<Receipt>, id: u64) -> bool {
    exists|i: int| 0 <= i < s.len() && s[i].id == id
}

/// The index of the receipt with the given id; with unique ids there is at
/// most one.
pub open spec fn receipt_at(s: Seq<Receipt>, id: u64) -> int {
    choose|i: int| 0 <= i < s.len() && s[i].id == id
}

/// No two recipients share an id.
pub open spec fn recipient_ids_unique(s: Seq<Recipient>) -> bool {
    forall|i: int, j: int| 0 <= i < j < s.len() ==> s[i].id != s[j].id
}

/// No two recipients belong to the same receipt.
pub open spec fn one_recipient_per_receipt(s: Seq<Recipient>) -> bool {
    forall|i: int, j: int| 0 <= i < j < s.len() ==> s[i].receipt_id != s[j].receipt_id
}

/// Some recipient belongs to the receipt with the given id.
pub open spec fn has_recipient(s: Seq<Recipient>, receipt_id: u64) -> bool {
    exists|i: int| 0 <= i < s.len() && s[i].receipt_id == receipt_id
}

/// The index of the recipient belonging to the given receipt; with at most
/// one recipient per receipt there is at most one.
pub open spec fn recipient_at(s: Seq<Recipient>, receipt_id: u64) -> int {
    choose|i: int| 0 <= i < s.len() && s[i].receipt_id == receipt_id
}

/// The index `receipt_at` names is the one index holding the id.
pub proof fn lemma_receipt_at(s: Seq<Receipt>, id: u64)
    requires
        receipt_ids_unique(s),
        has_receipt(s, id),
    ensures
        0 <= receipt_at(s, id) < s.len(),
        s[receipt_at(s, id)].id == id,
        forall|j: int| 0 <= j < s.len() && s[j].id == id ==> j == receipt_at(s, id),
{
    let i = receipt_at(s, id);
    assert(0 <= i < s.len() && s[i].id == id);
}

/// The index `recipient_at` names is the one index holding the receipt id.
pub proof fn lemma_recipient_at(s: Seq<Recipient>, receipt_id: u64)
    requires
        one_recipient_per_receipt(s),
        has_recipient(s, receipt_id),
    ensures
        0 <= recipient_at(s, receipt_id) < s.len(),
        s[recipient_at(s, receipt_id)].receipt_id == receipt_id,
        forall|j: int|
            0 <= j < s.len() && s[j].receipt_id == receipt_id ==> j == recipient_at(
                s,
                receipt_id,
            ),
{
    let i = recipient_at(s, receipt_id);
    assert(0 <= i < s.len() && s[i].receipt_id == receipt_id);
}

/// Relational storage for receipts and their recipients. Ids are assigned
/// from a counter that every stored row stays below, so they never repeat.
pub struct RecordStore {
    receipts: Vec<Receipt>,
    recipients: Vec<Recipient>,
    next_id: u64,
}

impl RecordStore {
    /// The stored receipts, in insertion order.
    pub closed spec fn receipts_seq(self) -> Seq<Receipt> {
        self.receipts@
    }

    /// The stored recipients, in insertion order.
    pub closed spec fn recipients_seq(self) -> Seq<Recipient> {
        self.recipients@
    }

    /// The bound below which every assigned id lies.
    pub closed spec fn id_bound(self) -> u64 {
        self.next_id
    }

    /// Well-formedness: ids are unique, each receipt has at most one
    /// recipient, every recipient belongs to a stored receipt, and every id
    /// lies below the assignment bound.
    pub open spec fn wf(self) -> bool {
        &&& receipt_ids_unique(self.receipts_seq())
        &&& recipient_ids_unique(self.recipients_seq())
        &&& one_recipient_per_receipt(self.recipients_seq())
        &&& forall|i: int|
            0 <= i < self.recipients_seq().len() ==> has_receipt(
                self.receipts_seq(),
                self.recipients_seq()[i].receipt_id,
            )
        &&& forall|i: int|
            0 <= i < self.receipts_seq().len() ==> self.receipts_seq()[i].id < self.id_bound()
        &&& forall|i: int|
            0 <= i < self.recipients_seq().len() ==> self.recipients_seq()[i].id
                < self.id_bound()
    }

    /// An empty store.
    pub fn new() -> (r: RecordStore)
        ensures
            r.wf(),
            r.receipts_seq() == Seq::<Receipt>::empty(),
            r.recipients_seq() == Seq::<Recipient>::empty(),
    {
        RecordStore { receipts: Vec::new(), recipients: Vec::new(), next_id: 0 }
    }

    /// Whether the store can still assign a fresh id.
    pub fn can_assign_id(&self) -> (r: bool)
        ensures
            r == (self.id_bound() < u64::MAX),
    {
        self.next_id < u64::MAX
    }

    /// The index of the stored receipt with the given id, if any.
    fn find_receipt_index(&self, id: u64) -> (r: Option<usize>)
        ensures
            match r {
                Some(i) => i < self.receipts_seq().len() && self.receipts_seq()[i as int].id
                    == id,
                None => !has_receipt(self.receipts_seq(), id),
            },
    {
        let mut i: usize = 0;
        while i < self.receipts.len()
            invariant
                i <= self.receipts@.len(),
                forall|j: int| 0 <= j < i ==> self.receipts@[j].id != id,
            decreases self.receipts@.len() - i,
        {
            if self.receipts[i].id == id {
                return Some(i);
            }
            i = i + 1;
        }
        None
    }

    /// The index of the stored recipient belonging to the given receipt, if
    /// any.
    fn find_recipient_index(&self, receipt_id: u64) -> (r: Option<usize>)
        ensures
            match r {
                Some(i) => i < self.recipients_seq().len() && self.recipients_seq()[i as int]
                    .receipt_id == receipt_id,
                None => !has_recipient(self.recipients_seq(), receipt_id),
            },
    {
        let mut i: usize = 0;
        while i < self.recipients.len()
            invariant
                i <= self.recipients@.len(),
                forall|j: int| 0 <= j < i ==> self.recipients@[j].receipt_id != receipt_id,
            decreases self.recipients@.len() - i,
        {
            if self.recipients[i].receipt_id == receipt_id {
                return Some(i);
            }
            i = i + 1;
        }
        None
    }

    /// Inserts a new receipt in state Inbox with a fresh id and returns it.
    pub fn insert_receipt(&mut self, name: String, file_hash: String) -> (r: Receipt)
        requires
            old(self).wf(),
            old(self).id_bound() < u64::MAX,
        ensures
            final(self).wf(),
            r.id == old(self).id_bound(),
            !has_receipt(old(self).receipts_seq(), r.id),
            r.name == name,
            r.state == ReceiptState::Inbox,
            r.file_hash == file_hash,
            r.category is None,
            r.payment_date is None,
            final(self).receipts_seq() == old(self).receipts_seq().push(r),
            final(self).recipients_seq() == old(self).recipients_seq(),
            final(self).id_bound() > old(self).id_bound(),
    {
        let ghost pre_receipts = self.receipts@;
        let id = self.next_id;
        self.next_id = self.next_id + 1;
        let r = Receipt {
            id,
            name,
            state: ReceiptState::Inbox,
            file_hash,
            category: None,
            payment_date: None,
        };
        let stored = r.duplicate();
        self.receipts.push(stored);
        proof {
            assert forall|k: int|
                0 <= k < self.recipients@.len() implies has_receipt(
                self.receipts@,
                self.recipients@[k].receipt_id,
            ) by {
                let rid = self.recipients@[k].receipt_id;
                let j = choose|j: int|
                    0 <= j < pre_receipts.len() && pre_receipts[j].id == rid;
                assert(self.receipts@[j].id == rid);
            }
        }
        r
    }

    /// Returns a copy of the receipt with the given id, if one is stored.
    pub fn find_receipt_by_id(&self, id: u64) -> (r: Option<Receipt>)
        requires
            self.wf(),
        ensures
            match r {
                Some(rec) => has_receipt(self.receipts_seq(), id) && rec
                    == self.receipts_seq()[receipt_at(self.receipts_seq(), id)],
                None => !has_receipt(self.receipts_seq(), id),
            },
    {
        match self.find_receipt_index(id) {
            Some(i) => {
                proof {
                    lemma_receipt_at(self.receipts_seq(), id);
                }
                Some(self.receipts[i].duplicate())
            },
            None => None,
        }
    }

    /// Returns copies of the stored receipts in the given state, in
    /// insertion order.
    pub fn find_receipts_by_state(&self, state: ReceiptState) -> (r: Vec<Receipt>)
        requires
            self.wf(),
        ensures
            r@ == self.receipts_seq().filter(|x: Receipt| x.state == state),
    {
        let mut out: Vec<Receipt> = Vec::new();
        let mut i: usize = 0;
        while i < self.receipts.len()
            invariant
                i <= self.receipts@.len(),
                out@ == self.receipts@.take(i as int).filter(|x: Receipt| x.state == state),
            decreases self.receipts@.len() - i,
        {
            proof {
                reveal(Seq::filter);
                assert(self.receipts@.take(i + 1).drop_last() =~= self.receipts@.take(
                    i as int,
                ));
                assert(self.receipts@.take(i + 1).last() == self.receipts@[i as int]);
            }
            if self.receipts[i].state == state {
                out.push(self.receipts[i].duplicate());
            }
            i = i + 1;
        }
        proof {
            assert(self.receipts@.take(self.receipts@.len() as int) =~= self.receipts@);
        }
        out
    }

    /// Returns a copy of the recipient belonging to the given receipt, if
    /// one is stored.
    pub fn find_recipient_by_receipt(&self, receipt_id: u64) -> (r: Option<Recipient>)
        requires
            self.wf(),
        ensures
            match r {
                Some(rec) => has_recipient(self.recipients_seq(), receipt_id) && rec
                    == self.recipients_seq()[recipient_at(self.recipients_seq(), receipt_id)],
                None => !has_recipient(self.recipients_seq(), receipt_id),
            },
    {
        match self.find_recipient_index(receipt_id) {
            Some(i) => {
                proof {
                    lemma_recipient_at(self.recipients_seq(), receipt_id);
                }
                Some(self.recipients[i].duplicate())
            },
            None => None,
        }
    }

    /// Overwrites the stored receipt that has the given receipt's id.
    pub fn update_receipt(&mut self, r: Receipt) -> (updated: Receipt)
        requires
            old(self).wf(),
            has_receipt(old(self).receipts_seq(), r.id),
        ensures
            final(self).wf(),
            updated == r,
            final(self).receipts_seq() == old(self).receipts_seq().update(
                receipt_at(old(self).receipts_seq(), r.id),
                r,
            ),
            final(self).recipients_seq() == old(self).recipients_seq(),
            final(self).id_bound() == old(self).id_bound(),
    {
        proof {
            lemma_receipt_at(self.receipts_seq(), r.id);
        }
        let ghost pre_receipts = self.receipts@;
        let updated = r.duplicate();
        match self.find_receipt_index(r.id) {
            Some(i) => {
                self.receipts.set(i, r);
            },
            None => {},
        }
        proof {
            assert(forall|j: int|
                0 <= j < self.receipts@.len() ==> self.receipts@[j].id == pre_receipts[j].id);
            assert forall|k: int|
                0 <= k < self.recipients@.len() implies has_receipt(
                self.receipts@,
                self.recipients@[k].receipt_id,
            ) by {
                let rid = self.recipients@[k].receipt_id;
                let j = choose|j: int|
                    0 <= j < pre_receipts.len() && pre_receipts[j].id == rid;
                assert(self.receipts@[j].id == rid);
            }
        }
        updated
    }

    /// Updates the recipient of the given receipt in place if one is
    /// stored, else inserts one with a fresh id; returns the stored row.
    pub fn upsert_recipient(&mut self, receipt_id: u64, fields: RecipientFields) -> (r:
        Recipient)
        requires
            old(self).wf(),
            has_receipt(old(self).receipts_seq(), receipt_id),
            old(self).id_bound() < u64::MAX,
        ensures
            final(self).wf(),
            r.receipt_id == receipt_id,
            final(self).receipts_seq() == old(self).receipts_seq(),
            if has_recipient(old(self).recipients_seq(), receipt_id) {
                r == fields.to_recipient(
                    old(self).recipients_seq()[recipient_at(
                        old(self).recipients_seq(),
                        receipt_id,
                    )].id,
                    receipt_id,
                ) && final(self).recipients_seq() == old(self).recipients_seq().update(
                    recipient_at(old(self).recipients_seq(), receipt_id),
                    r,
                )
            } else {
                r == fields.to_recipient(old(self).id_bound(), receipt_id)
                    && final(self).recipients_seq() == old(self).recipients_seq().push(r)
            },
    {
        match self.find_recipient_index(receipt_id) {
            Some(i) => {
                proof {
                    lemma_recipient_at(self.recipients_seq(), receipt_id);
                }
                let id = self.recipients[i].id;
                let row = Recipient {
                    id,
                    receipt_id,
                    name: fields.name,
                    iban: fields.iban,
                    address_line1: fields.address_line1,
                    address_line2: fields.address_line2,
                    address_line3: fields.address_line3,
                    address_line4: fields.address_line4,
                };
                let stored = row.duplicate();
                self.recipients.set(i, stored);
                row
            },
            None => {
                let id = self.next_id;
                self.next_id = self.next_id + 1;
                let row = Recipient {
                    id,
                    receipt_id,
                    name: fields.name,
                    iban: fields.iban,
                    address_line1: fields.address_line1,
                    address_line2: fields.address_line2,
                    address_line3: fields.address_line3,
                    address_line4: fields.address_line4,
                };
                let stored = row.duplicate();
                self.recipients.push(stored);
                row
            },
        }
    }
}

} // verus!
