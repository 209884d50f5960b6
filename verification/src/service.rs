use crate::blob::put_spec;
use crate::blob::BlobStore;
use crate::digest::digest_of;
use crate::lifecycle::apply_action_post;
use crate::lifecycle::store_unchanged;
use crate::model::ActionAnswer;
use crate::model::Receipt;
use crate::model::ReceiptAction;
use crate::model::ReceiptError;
use crate::model::ReceiptUploadRequest;
use crate::model::Recipient;
use crate::records::has_receipt;
use crate::records::has_recipient;
use crate::records::lemma_receipt_at;
use crate::records::receipt_at;
use crate::records::recipient_at;
use crate::records::RecordStore;
use crate::state::ReceiptState;
use vstd::prelude::*;
use vstd::slice::slice_to_vec;

verus! {

/// The receipt system's core: the blob store for uploaded file bytes, the
/// record store for receipts and recipients, and the bound on an upload's
/// size. Both stores are constructed once and injected here at startup.
pub struct ReceiptService {
    blobs: BlobStore,
    records: RecordStore,
    max_upload: usize,
}

impl ReceiptService {
    /// The stored blobs, as a map from digest key to content bytes.
    pub closed spec fn blobs_map(self) -> Map<Seq<char>, Seq<u8>> {
        self.blobs@
    }

    /// The stored receipts, in insertion order.
    pub closed spec fn receipts_seq(self) -> Seq<Receipt> {
        self.records.receipts_seq()
    }

    /// The stored recipients, in insertion order.
    pub closed spec fn recipients_seq(self) -> Seq<Recipient> {
        self.records.recipients_seq()
    }

    /// The bound below which every assigned record id lies.
    pub closed spec fn id_bound(self) -> u64 {
        self.records.id_bound()
    }

    /// The largest accepted upload, in bytes.
    pub closed spec fn max_upload_spec(self) -> usize {
        self.max_upload
    }

    /// Whether the stores are well formed together: each store on its own,
    /// and every receipt's file hash referencing a stored blob.
    pub closed spec fn wf(self) -> bool {
        &&& self.blobs.wf()
        &&& self.records.wf()
        &&& forall|i: int|
            0 <= i < self.receipts_seq().len() ==> self.blobs_map().contains_key(
                self.receipts_seq()[i].file_hash@,
            )
    }

    /// A service over empty stores, accepting uploads up to the given size.
    pub fn new(max_upload: usize) -> (r: ReceiptService)
        ensures
            r.wf(),
            r.blobs_map() == Map::<Seq<char>, Seq<u8>>::empty(),
            r.receipts_seq() == Seq::<Receipt>::empty(),
            r.recipients_seq() == Seq::<Recipient>::empty(),
            r.max_upload_spec() == max_upload,
    {
        ReceiptService { blobs: BlobStore::new(), records: RecordStore::new(), max_upload }
    }

    /// Takes an upload already drained to plain bytes, stores the content
    /// under its digest, and only then creates the receipt, in state
    /// Inbox, referencing that digest: a receipt never points at a
    /// missing blob. An upload over the configured bound is refused and
    /// changes nothing.
    pub fn upload(&mut self, req: ReceiptUploadRequest) -> (r: Result<Receipt, ReceiptError>)
        requires
            old(self).wf(),
            old(self).id_bound() < u64::MAX,
        ensures
            final(self).wf(),
            final(self).max_upload_spec() == old(self).max_upload_spec(),
            req.file@.len() > old(self).max_upload_spec() ==> (r matches Err(e) && e
                == ReceiptError::FileTooLarge) && final(self).blobs_map() == old(
                self,
            ).blobs_map() && store_unchanged(old(self).records_view(), final(self).records_view()),
            req.file@.len() <= old(self).max_upload_spec() ==> (r matches Ok(rec) && {
                &&& rec.state == ReceiptState::Inbox
                &&& rec.name == req.name
                &&& rec.file_hash@ == digest_of(req.file@)
                &&& rec.category is None
                &&& rec.payment_date is None
                &&& rec.id == old(self).id_bound()
                &&& !has_receipt(old(self).receipts_seq(), rec.id)
                &&& final(self).receipts_seq() == old(self).receipts_seq().push(rec)
                &&& final(self).recipients_seq() == old(self).recipients_seq()
                &&& final(self).blobs_map() == put_spec(old(self).blobs_map(), req.file@)
            }),
    {
        if req.file.len() > self.max_upload {
            return Err(ReceiptError::FileTooLarge);
        }
        let ghost pre_blobs = self.blobs@;
        let digest = self.blobs.put(&req.file);
        let rec = self.records.insert_receipt(req.name, digest);
        proof {
            assert forall|i: int|
                0 <= i < self.receipts_seq().len() implies self.blobs_map().contains_key(
                self.receipts_seq()[i].file_hash@,
            ) by {
                if i < self.receipts_seq().len() - 1 {
                    assert(pre_blobs.contains_key(self.receipts_seq()[i].file_hash@));
                }
            }
        }
        Ok(rec)
    }

    /// The record store's visible contents, for stating what stays put.
    pub closed spec fn records_view(self) -> RecordStore {
        self.records
    }

    /// Whether the record store can still assign a fresh id.
    pub fn can_assign_id(&self) -> (r: bool)
        ensures
            r == (self.id_bound() < u64::MAX),
    {
        self.records.can_assign_id()
    }

    /// Returns the stored receipts in the given state, in insertion order.
    pub fn list_receipts(&self, state: ReceiptState) -> (r: Vec<Receipt>)
        requires
            self.wf(),
        ensures
            r@ == self.receipts_seq().filter(|x: Receipt| x.state == state),
    {
        self.records.find_receipts_by_state(state)
    }

    /// Validates and applies one action against the named receipt, as one
    /// atomic read-modify-write on the record store; file bytes are never
    /// touched.
    pub fn apply_action(&mut self, id: u64, action: ReceiptAction) -> (r: Result<
        ActionAnswer,
        ReceiptError,
    >)
        requires
            old(self).wf(),
            old(self).id_bound() < u64::MAX,
        ensures
            final(self).wf(),
            final(self).blobs_map() == old(self).blobs_map(),
            final(self).max_upload_spec() == old(self).max_upload_spec(),
            !has_receipt(old(self).receipts_seq(), id) ==> (r matches Err(e) && e
                == ReceiptError::NotFound) && store_unchanged(
                old(self).records_view(),
                final(self).records_view(),
            ),
            has_receipt(old(self).receipts_seq(), id) ==> apply_action_post(
                old(self).records_view(),
                final(self).records_view(),
                id,
                action,
                r,
            ),
    {
        let ghost pre = self.records;
        let r = self.records.apply_action(id, action);
        proof {
            if has_receipt(pre.receipts_seq(), id) {
                crate::lifecycle::lemma_apply_action_keeps_file_hashes(
                    pre,
                    self.records,
                    id,
                    action,
                    r,
                );
            }
            assert forall|i: int|
                0 <= i < self.receipts_seq().len() implies self.blobs_map().contains_key(
                self.receipts_seq()[i].file_hash@,
            ) by {
                assert(self.receipts_seq()[i].file_hash == pre.receipts_seq()[i].file_hash);
            }
        }
        r
    }

    /// Returns the named receipt together with its recipient, if one is
    /// attached.
    pub fn get_receipt(&self, id: u64) -> (r: Result<(Receipt, Option<Recipient>), ReceiptError>)
        requires
            self.wf(),
        ensures
            match r {
                Ok((rec, rcpt)) => {
                    &&& has_receipt(self.receipts_seq(), id)
                    &&& rec == self.receipts_seq()[receipt_at(self.receipts_seq(), id)]
                    &&& match rcpt {
                        Some(p) => has_recipient(self.recipients_seq(), id) && p
                            == self.recipients_seq()[recipient_at(self.recipients_seq(), id)],
                        None => !has_recipient(self.recipients_seq(), id),
                    }
                },
                Err(e) => e == ReceiptError::NotFound && !has_receipt(self.receipts_seq(), id),
            },
    {
        match self.records.find_receipt_by_id(id) {
            None => Err(ReceiptError::NotFound),
            Some(rec) => {
                let rcpt = self.records.find_recipient_by_receipt(id);
                Ok((rec, rcpt))
            },
        }
    }

    /// Resolves the named receipt's file hash against the blob store and
    /// returns the stored bytes: exactly the bytes that were uploaded
    /// under this receipt, as long as no other stored content shares
    /// their digest.
    pub fn get_file(&self, id: u64) -> (r: Result<Vec<u8>, ReceiptError>)
        requires
            self.wf(),
        ensures
            match r {
                Ok(v) => has_receipt(self.receipts_seq(), id) && v@ == self.blobs_map()[
                    self.receipts_seq()[receipt_at(self.receipts_seq(), id)].file_hash@
                ],
                Err(e) => e == ReceiptError::NotFound && !has_receipt(self.receipts_seq(), id),
            },
    {
        match self.records.find_receipt_by_id(id) {
            None => Err(ReceiptError::NotFound),
            Some(rec) => {
                proof {
                    lemma_receipt_at(self.records.receipts_seq(), id);
                }
                match self.blobs.get(&rec.file_hash) {
                    Some(v) => Ok(slice_to_vec(v.as_slice())),
                    None => Err(ReceiptError::NotFound),
                }
            },
        }
    }
}

} // verus!
