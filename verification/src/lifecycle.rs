use crate::model::ActionAnswer;
use crate::model::Receipt;
use crate::model::ReceiptAction;
use crate::model::ReceiptError;
use crate::records::has_receipt;
use crate::records::has_recipient;
use crate::records::lemma_receipt_at;
use crate::records::receipt_at;
use crate::records::recipient_at;
use crate::records::RecordStore;
use crate::state::state_label;
use crate::state::ReceiptState;
use vstd::prelude::*;
use vstd::string::StringExecFns;

verus! {

/// Whether an action's precondition holds against the receipt's current
/// state: Accept and Decline ask for Inbox, Pay asks only for a payment
/// date, the setters are unconditional, and confirming a process step has
/// no implemented effect.
pub open spec fn step_allowed(r: Receipt, a: ReceiptAction) -> bool {
    match a {
        ReceiptAction::Accept => r.state == ReceiptState::Inbox,
        ReceiptAction::Decline => r.state == ReceiptState::Inbox,
        ReceiptAction::Pay => r.payment_date is Some,
        ReceiptAction::ConfirmProcessStep(_) => false,
        ReceiptAction::SetRecipient(_) => true,
        ReceiptAction::SetCategory(_) => true,
        ReceiptAction::SetPaymentDate(_) => true,
    }
}

/// The receipt after an allowed action: only the addressed field changes.
pub open spec fn stepped_receipt(r: Receipt, a: ReceiptAction) -> Receipt {
    match a {
        ReceiptAction::Accept => Receipt { state: ReceiptState::Valid, ..r },
        ReceiptAction::Decline => Receipt { state: ReceiptState::Declined, ..r },
        ReceiptAction::Pay => Receipt { state: ReceiptState::Payed, ..r },
        ReceiptAction::ConfirmProcessStep(_) => r,
        ReceiptAction::SetRecipient(_) => r,
        ReceiptAction::SetCategory(c) => Receipt { category: Some(c), ..r },
        ReceiptAction::SetPaymentDate(d) => Receipt { payment_date: Some(d), ..r },
    }
}

/// The explanation returned when an action's precondition fails, naming
/// the receipt and, for Accept and Decline, its current state.
pub open spec fn rejection_message(r: Receipt, a: ReceiptAction) -> Seq<char> {
    match a {
        ReceiptAction::Accept => "cannot accept receipt "@ + r.name@ + " in state "@
            + state_label(r.state),
        ReceiptAction::Decline => "cannot decline receipt "@ + r.name@ + " in state "@
            + state_label(r.state),
        ReceiptAction::Pay => "payment date not set for "@ + r.name@,
        _ => Seq::empty(),
    }
}

/// The store's visible contents did not change.
pub open spec fn store_unchanged(pre: RecordStore, post: RecordStore) -> bool {
    &&& post.receipts_seq() == pre.receipts_seq()
    &&& post.recipients_seq() == pre.recipients_seq()
    &&& post.id_bound() == pre.id_bound()
}

/// What applying an action to a stored receipt leaves behind, for each
/// kind of action, when the receipt exists.
pub open spec fn apply_action_post(
    pre: RecordStore,
    post: RecordStore,
    id: u64,
    action: ReceiptAction,
    r: Result<ActionAnswer, ReceiptError>,
) -> bool {
    let i = receipt_at(pre.receipts_seq(), id);
    let rec = pre.receipts_seq()[i];
    match action {
        ReceiptAction::ConfirmProcessStep(_) => {
            &&& (r matches Err(e) && e == ReceiptError::UnimplementedAction)
            &&& store_unchanged(pre, post)
        },
        ReceiptAction::SetRecipient(fields) => {
            &&& post.receipts_seq() == pre.receipts_seq()
            &&& (r matches Ok(ActionAnswer::ReceiptAndRecipient(x, p)) && x == rec
                && p.receipt_id == id && (if has_recipient(pre.recipients_seq(), id) {
                p == fields.to_recipient(
                    pre.recipients_seq()[recipient_at(pre.recipients_seq(), id)].id,
                    id,
                ) && post.recipients_seq() == pre.recipients_seq().update(
                    recipient_at(pre.recipients_seq(), id),
                    p,
                )
            } else {
                p == fields.to_recipient(pre.id_bound(), id) && post.recipients_seq()
                    == pre.recipients_seq().push(p)
            }))
        },
        _ => {
            if step_allowed(rec, action) {
                &&& (r matches Ok(ActionAnswer::Receipt(x)) && x == stepped_receipt(
                    rec,
                    action,
                ))
                &&& post.receipts_seq() == pre.receipts_seq().update(
                    i,
                    stepped_receipt(rec, action),
                )
                &&& post.recipients_seq() == pre.recipients_seq()
                &&& post.id_bound() == pre.id_bound()
            } else {
                &&& (r matches Ok(ActionAnswer::Error(m)) && m@ == rejection_message(
                    rec,
                    action,
                ))
                &&& store_unchanged(pre, post)
            }
        },
    }
}

/// Builds the refusal for Accept or Decline from the given opening words.
fn state_rejection(prefix: &str, name: &String, st: ReceiptState) -> (m: String)
    ensures
        m@ == prefix@ + name@ + " in state "@ + state_label(st),
{
    let mut m = prefix.to_owned();
    m.append(name.as_str());
    m.append(" in state ");
    let lab = st.label();
    m.append(lab.as_str());
    m
}

/// Builds the refusal for Pay without a payment date.
fn pay_rejection(name: &String) -> (m: String)
    ensures
        m@ == "payment date not set for "@ + name@,
{
    let mut m = String::from_str("payment date not set for ");
    m.append(name.as_str());
    m
}

impl RecordStore {
    /// Validates the action against the receipt's current state and applies
    /// it in one read-modify-write against this store; a failed
    /// precondition is answered with an explanation and changes nothing.
    /// The exclusive borrow of the store keeps two actions on the same
    /// receipt strictly ordered: each sees the state the other left behind.
    pub fn apply_action(&mut self, id: u64, action: ReceiptAction) -> (r: Result<
        ActionAnswer,
        ReceiptError,
    >)
        requires
            old(self).wf(),
            old(self).id_bound() < u64::MAX,
        ensures
            final(self).wf(),
            !has_receipt(old(self).receipts_seq(), id) ==> (r matches Err(e) && e
                == ReceiptError::NotFound) && store_unchanged(*old(self), *final(self)),
            has_receipt(old(self).receipts_seq(), id) ==> apply_action_post(
                *old(self),
                *final(self),
                id,
                action,
                r,
            ),
    {
        let found = self.find_receipt_by_id(id);
        match found {
            None => Err(ReceiptError::NotFound),
            Some(model) => {
                proof {
                    lemma_receipt_at(self.receipts_seq(), id);
                }
                match action {
                    ReceiptAction::Accept => {
                        if model.state == ReceiptState::Inbox {
                            let mut updated = model;
                            updated.state = ReceiptState::Valid;
                            let stored = self.update_receipt(updated);
                            Ok(ActionAnswer::Receipt(stored))
                        } else {
                            let m = state_rejection(
                                "cannot accept receipt ",
                                &model.name,
                                model.state,
                            );
                            Ok(ActionAnswer::Error(m))
                        }
                    },
                    ReceiptAction::Decline => {
                        if model.state == ReceiptState::Inbox {
                            let mut updated = model;
                            updated.state = ReceiptState::Declined;
                            let stored = self.update_receipt(updated);
                            Ok(ActionAnswer::Receipt(stored))
                        } else {
                            let m = state_rejection(
                                "cannot decline receipt ",
                                &model.name,
                                model.state,
                            );
                            Ok(ActionAnswer::Error(m))
                        }
                    },
                    ReceiptAction::Pay => {
                        if model.payment_date.is_some() {
                            let mut updated = model;
                            updated.state = ReceiptState::Payed;
                            let stored = self.update_receipt(updated);
                            Ok(ActionAnswer::Receipt(stored))
                        } else {
                            let m = pay_rejection(&model.name);
                            Ok(ActionAnswer::Error(m))
                        }
                    },
                    ReceiptAction::ConfirmProcessStep(_) => Err(
                        ReceiptError::UnimplementedAction,
                    ),
                    ReceiptAction::SetRecipient(fields) => {
                        let row = self.upsert_recipient(id, fields);
                        Ok(ActionAnswer::ReceiptAndRecipient(model, row))
                    },
                    ReceiptAction::SetCategory(c) => {
                        let mut updated = model;
                        updated.category = Some(c);
                        let stored = self.update_receipt(updated);
                        Ok(ActionAnswer::Receipt(stored))
                    },
                    ReceiptAction::SetPaymentDate(d) => {
                        let mut updated = model;
                        updated.payment_date = Some(d);
                        let stored = self.update_receipt(updated);
                        Ok(ActionAnswer::Receipt(stored))
                    },
                }
            },
        }
    }
}

/// Applying an action changes neither the number of stored receipts nor
/// any receipt's file hash: actions move workflow fields only.
pub proof fn lemma_apply_action_keeps_file_hashes(
    pre: RecordStore,
    post: RecordStore,
    id: u64,
    action: ReceiptAction,
    r: Result<ActionAnswer, ReceiptError>,
)
    requires
        has_receipt(pre.receipts_seq(), id),
        apply_action_post(pre, post, id, action, r),
    ensures
        post.receipts_seq().len() == pre.receipts_seq().len(),
        forall|i: int|
            0 <= i < pre.receipts_seq().len() ==> post.receipts_seq()[i].file_hash
                == pre.receipts_seq()[i].file_hash,
{
    let i = receipt_at(pre.receipts_seq(), id);
    let rec = pre.receipts_seq()[i];
    match action {
        ReceiptAction::Accept => assert(stepped_receipt(rec, action).file_hash
            == rec.file_hash),
        ReceiptAction::Decline => assert(stepped_receipt(rec, action).file_hash
            == rec.file_hash),
        ReceiptAction::Pay => assert(stepped_receipt(rec, action).file_hash == rec.file_hash),
        ReceiptAction::SetCategory(_) => assert(stepped_receipt(rec, action).file_hash
            == rec.file_hash),
        ReceiptAction::SetPaymentDate(_) => assert(stepped_receipt(rec, action).file_hash
            == rec.file_hash),
        ReceiptAction::ConfirmProcessStep(_) => {},
        ReceiptAction::SetRecipient(_) => {},
    }
}

/// Accept moves a receipt from Inbox to Valid and changes nothing else;
/// in any other state it is refused with a message naming the receipt and
/// its current state, and the record is left as it was.
pub proof fn lemma_accept_transition(r: Receipt)
    ensures
        step_allowed(r, ReceiptAction::Accept) <==> r.state == ReceiptState::Inbox,
        stepped_receipt(r, ReceiptAction::Accept) == (Receipt {
            state: ReceiptState::Valid,
            ..r
        }),
        rejection_message(r, ReceiptAction::Accept) == "cannot accept receipt "@ + r.name@
            + " in state "@ + state_label(r.state),
{
}

/// Decline mirrors Accept: it moves a receipt from Inbox to Declined and
/// changes nothing else, and in any other state it is refused with a
/// message naming the receipt and its current state.
pub proof fn lemma_decline_transition(r: Receipt)
    ensures
        step_allowed(r, ReceiptAction::Decline) <==> r.state == ReceiptState::Inbox,
        stepped_receipt(r, ReceiptAction::Decline) == (Receipt {
            state: ReceiptState::Declined,
            ..r
        }),
        rejection_message(r, ReceiptAction::Decline) == "cannot decline receipt "@ + r.name@
            + " in state "@ + state_label(r.state),
{
}

/// Pay asks only that a payment date is set: whatever the current state,
/// even Declined or already Payed, it then moves the receipt to Payed.
pub proof fn lemma_pay_permissive(r: Receipt)
    ensures
        step_allowed(r, ReceiptAction::Pay) <==> r.payment_date is Some,
        stepped_receipt(r, ReceiptAction::Pay) == (Receipt { state: ReceiptState::Payed, ..r }),
        rejection_message(r, ReceiptAction::Pay) == "payment date not set for "@ + r.name@,
{
}

/// The setters have no precondition and never move the workflow state.
pub proof fn lemma_setters_keep_state(r: Receipt, a: ReceiptAction)
    requires
        a is SetRecipient || a is SetCategory || a is SetPaymentDate,
    ensures
        step_allowed(r, a),
        stepped_receipt(r, a).state == r.state,
        stepped_receipt(r, a).id == r.id,
        stepped_receipt(r, a).name == r.name,
        stepped_receipt(r, a).file_hash == r.file_hash,
{
}

/// Only one of two Accepts on the same receipt can succeed: an accepted
/// receipt has left Inbox, so a second Accept finds its precondition
/// false. Actions are applied through an exclusive borrow of the store,
/// one read-modify-write at a time, so a second attempt always observes
/// the first one's write.
pub proof fn lemma_accept_exclusive(r: Receipt)
    requires
        r.state == ReceiptState::Inbox,
    ensures
        step_allowed(r, ReceiptAction::Accept),
        stepped_receipt(r, ReceiptAction::Accept).state == ReceiptState::Valid,
        !step_allowed(stepped_receipt(r, ReceiptAction::Accept), ReceiptAction::Accept),
{
}

} // verus!
