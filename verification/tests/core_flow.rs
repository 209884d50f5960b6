use receipts::model::ActionAnswer;
use receipts::model::Date;
use receipts::model::ReceiptAction;
use receipts::model::ReceiptError;
use receipts::model::ReceiptUploadRequest;
use receipts::model::RecipientFields;
use receipts::service::ReceiptService;
use receipts::state::ReceiptState;

const ABC_SHA256: &str = "ba7816bf8f01cfea414140de5dae2223b00361a396177a9cb410ff61f20015ad";

fn upload(service: &mut ReceiptService, name: &str, bytes: &[u8]) -> receipts::model::Receipt {
    service
        .upload(ReceiptUploadRequest { name: name.to_string(), file: bytes.to_vec() })
        .expect("upload")
}

fn fields(name: &str) -> RecipientFields {
    RecipientFields {
        name: name.to_string(),
        iban: "DE00123456781234567890".to_string(),
        address_line1: "line 1".to_string(),
        address_line2: "line 2".to_string(),
        address_line3: "line 3".to_string(),
        address_line4: "line 4".to_string(),
    }
}

#[test]
fn upload_creates_an_inbox_receipt_referencing_the_digest() {
    let mut service = ReceiptService::new(1 << 20);
    let receipt = upload(&mut service, "invoice.pdf", b"abc");
    assert_eq!(receipt.state, ReceiptState::Inbox);
    assert_eq!(receipt.name, "invoice.pdf");
    assert_eq!(receipt.file_hash, ABC_SHA256);
    assert_eq!(receipt.category, None);
    assert_eq!(receipt.payment_date, None);
}

#[test]
fn uploads_get_distinct_ids() {
    let mut service = ReceiptService::new(1 << 20);
    let first = upload(&mut service, "a.pdf", b"aaa");
    let second = upload(&mut service, "b.pdf", b"bbb");
    assert_ne!(first.id, second.id);
}

#[test]
fn uploading_identical_content_twice_reuses_the_digest() {
    let mut service = ReceiptService::new(1 << 20);
    let first = upload(&mut service, "a.pdf", b"abc");
    let second = upload(&mut service, "b.pdf", b"abc");
    assert_eq!(first.file_hash, second.file_hash);
    assert_ne!(first.id, second.id);
    assert_eq!(service.get_file(first.id).expect("first"), b"abc".to_vec());
    assert_eq!(service.get_file(second.id).expect("second"), b"abc".to_vec());
}

#[test]
fn an_oversized_upload_is_refused() {
    let mut service = ReceiptService::new(3);
    let outcome = service.upload(ReceiptUploadRequest {
        name: "big.pdf".to_string(),
        file: b"abcd".to_vec(),
    });
    assert_eq!(outcome, Err(ReceiptError::FileTooLarge));
    let ok = service.upload(ReceiptUploadRequest {
        name: "small.pdf".to_string(),
        file: b"abc".to_vec(),
    });
    assert!(ok.is_ok());
}

#[test]
fn download_returns_exactly_the_uploaded_bytes() {
    let mut service = ReceiptService::new(1 << 20);
    let receipt = upload(&mut service, "invoice.pdf", b"abc");
    let bytes = service.get_file(receipt.id).expect("stored file");
    assert_eq!(bytes, b"abc".to_vec());
}

#[test]
fn download_of_an_unknown_receipt_is_not_found() {
    let service = ReceiptService::new(1 << 20);
    assert_eq!(service.get_file(7), Err(ReceiptError::NotFound));
}

#[test]
fn accept_moves_inbox_to_valid() {
    let mut service = ReceiptService::new(1 << 20);
    let receipt = upload(&mut service, "invoice.pdf", b"abc");
    let answer = service.apply_action(receipt.id, ReceiptAction::Accept).expect("answer");
    match answer {
        ActionAnswer::Receipt(updated) => {
            assert_eq!(updated.state, ReceiptState::Valid);
            assert_eq!(updated.id, receipt.id);
            assert_eq!(updated.file_hash, receipt.file_hash);
        },
        other => panic!("unexpected answer: {:?}", other),
    }
}

#[test]
fn accept_outside_inbox_is_rejected_and_changes_nothing() {
    let mut service = ReceiptService::new(1 << 20);
    let receipt = upload(&mut service, "invoice.pdf", b"abc");
    service.apply_action(receipt.id, ReceiptAction::Accept).expect("first accept");
    let answer = service.apply_action(receipt.id, ReceiptAction::Accept).expect("answer");
    assert_eq!(
        answer,
        ActionAnswer::Error("cannot accept receipt invoice.pdf in state valid".to_string())
    );
    let (current, _) = service.get_receipt(receipt.id).expect("receipt");
    assert_eq!(current.state, ReceiptState::Valid);
}

#[test]
fn decline_moves_inbox_to_declined() {
    let mut service = ReceiptService::new(1 << 20);
    let receipt = upload(&mut service, "bill.pdf", b"xyz");
    let answer = service.apply_action(receipt.id, ReceiptAction::Decline).expect("answer");
    match answer {
        ActionAnswer::Receipt(updated) => assert_eq!(updated.state, ReceiptState::Declined),
        other => panic!("unexpected answer: {:?}", other),
    }
    let again = service.apply_action(receipt.id, ReceiptAction::Decline).expect("answer");
    assert_eq!(
        again,
        ActionAnswer::Error("cannot decline receipt bill.pdf in state declined".to_string())
    );
}

#[test]
fn pay_without_a_payment_date_is_rejected() {
    let mut service = ReceiptService::new(1 << 20);
    let receipt = upload(&mut service, "bill.pdf", b"xyz");
    let answer = service.apply_action(receipt.id, ReceiptAction::Pay).expect("answer");
    assert_eq!(answer, ActionAnswer::Error("payment date not set for bill.pdf".to_string()));
    let (current, _) = service.get_receipt(receipt.id).expect("receipt");
    assert_eq!(current.state, ReceiptState::Inbox);
}

#[test]
fn pay_fires_from_any_state_once_a_date_is_set() {
    let mut service = ReceiptService::new(1 << 20);
    let receipt = upload(&mut service, "bill.pdf", b"xyz");
    service.apply_action(receipt.id, ReceiptAction::Decline).expect("decline");
    let date = Date::new(2024, 1, 1).expect("date");
    service.apply_action(receipt.id, ReceiptAction::SetPaymentDate(date)).expect("set date");
    let answer = service.apply_action(receipt.id, ReceiptAction::Pay).expect("answer");
    match answer {
        ActionAnswer::Receipt(updated) => {
            assert_eq!(updated.state, ReceiptState::Payed);
            assert_eq!(updated.payment_date, Some(date));
        },
        other => panic!("unexpected answer: {:?}", other),
    }
}

#[test]
fn setters_never_fail_and_keep_the_state() {
    let mut service = ReceiptService::new(1 << 20);
    let receipt = upload(&mut service, "bill.pdf", b"xyz");
    let answer = service
        .apply_action(receipt.id, ReceiptAction::SetCategory("travel".to_string()))
        .expect("answer");
    match answer {
        ActionAnswer::Receipt(updated) => {
            assert_eq!(updated.state, ReceiptState::Inbox);
            assert_eq!(updated.category, Some("travel".to_string()));
        },
        other => panic!("unexpected answer: {:?}", other),
    }
    let date = Date::new(2023, 12, 31).expect("date");
    let answer = service
        .apply_action(receipt.id, ReceiptAction::SetPaymentDate(date))
        .expect("answer");
    match answer {
        ActionAnswer::Receipt(updated) => {
            assert_eq!(updated.state, ReceiptState::Inbox);
            assert_eq!(updated.payment_date, Some(date));
        },
        other => panic!("unexpected answer: {:?}", other),
    }
    let answer = service
        .apply_action(receipt.id, ReceiptAction::SetRecipient(fields("ACME")))
        .expect("answer");
    match answer {
        ActionAnswer::ReceiptAndRecipient(current, recipient) => {
            assert_eq!(current.state, ReceiptState::Inbox);
            assert_eq!(recipient.receipt_id, receipt.id);
            assert_eq!(recipient.name, "ACME");
        },
        other => panic!("unexpected answer: {:?}", other),
    }
}

#[test]
fn set_recipient_updates_in_place() {
    let mut service = ReceiptService::new(1 << 20);
    let receipt = upload(&mut service, "bill.pdf", b"xyz");
    let first = match service
        .apply_action(receipt.id, ReceiptAction::SetRecipient(fields("ACME")))
        .expect("answer")
    {
        ActionAnswer::ReceiptAndRecipient(_, recipient) => recipient,
        other => panic!("unexpected answer: {:?}", other),
    };
    let second = match service
        .apply_action(receipt.id, ReceiptAction::SetRecipient(fields("New ACME")))
        .expect("answer")
    {
        ActionAnswer::ReceiptAndRecipient(_, recipient) => recipient,
        other => panic!("unexpected answer: {:?}", other),
    };
    assert_eq!(first.id, second.id);
    assert_eq!(second.name, "New ACME");
    let (_, stored) = service.get_receipt(receipt.id).expect("receipt");
    assert_eq!(stored.expect("recipient").name, "New ACME");
}

#[test]
fn confirm_process_step_is_unimplemented() {
    let mut service = ReceiptService::new(1 << 20);
    let receipt = upload(&mut service, "bill.pdf", b"xyz");
    let outcome = service
        .apply_action(receipt.id, ReceiptAction::ConfirmProcessStep("step".to_string()));
    assert_eq!(outcome, Err(ReceiptError::UnimplementedAction));
}

#[test]
fn actions_on_an_unknown_receipt_are_not_found() {
    let mut service = ReceiptService::new(1 << 20);
    let outcome = service.apply_action(42, ReceiptAction::Accept);
    assert_eq!(outcome, Err(ReceiptError::NotFound));
    assert_eq!(service.get_receipt(42), Err(ReceiptError::NotFound));
}

#[test]
fn list_receipts_filters_by_state() {
    let mut service = ReceiptService::new(1 << 20);
    let first = upload(&mut service, "a.pdf", b"aaa");
    let second = upload(&mut service, "b.pdf", b"bbb");
    let third = upload(&mut service, "c.pdf", b"ccc");
    service.apply_action(second.id, ReceiptAction::Accept).expect("accept");
    let inbox = service.list_receipts(ReceiptState::Inbox);
    let valid = service.list_receipts(ReceiptState::Valid);
    let payed = service.list_receipts(ReceiptState::Payed);
    assert_eq!(
        inbox.iter().map(|r| r.id).collect::<Vec<u64>>(),
        vec![first.id, third.id]
    );
    assert_eq!(valid.iter().map(|r| r.id).collect::<Vec<u64>>(), vec![second.id]);
    assert!(payed.is_empty());
}

#[test]
fn end_to_end_invoice_scenario() {
    let mut service = ReceiptService::new(1 << 20);
    let receipt = upload(&mut service, "invoice.pdf", b"abc");
    assert_eq!(receipt.state, ReceiptState::Inbox);
    assert_eq!(receipt.file_hash, ABC_SHA256);

    let answer = service.apply_action(receipt.id, ReceiptAction::Accept).expect("accept");
    match answer {
        ActionAnswer::Receipt(updated) => assert_eq!(updated.state, ReceiptState::Valid),
        other => panic!("unexpected answer: {:?}", other),
    }

    let answer = service.apply_action(receipt.id, ReceiptAction::Accept).expect("again");
    assert_eq!(
        answer,
        ActionAnswer::Error("cannot accept receipt invoice.pdf in state valid".to_string())
    );

    let date = Date::new(2024, 1, 1).expect("date");
    let answer = service
        .apply_action(receipt.id, ReceiptAction::SetPaymentDate(date))
        .expect("set date");
    match answer {
        ActionAnswer::Receipt(updated) => {
            assert_eq!(updated.payment_date, Some(date));
            assert_eq!(updated.state, ReceiptState::Valid);
        },
        other => panic!("unexpected answer: {:?}", other),
    }

    let answer = service.apply_action(receipt.id, ReceiptAction::Pay).expect("pay");
    match answer {
        ActionAnswer::Receipt(updated) => assert_eq!(updated.state, ReceiptState::Payed),
        other => panic!("unexpected answer: {:?}", other),
    }
}
