use crate::state::ReceiptState;
use vstd::prelude::*;

verus! {

/// A calendar date without a time component, held as plain numbers.
#[derive(Clone, Copy, Debug, PartialEq, Eq, Structural)]
pub struct Date {
    pub year: i32,
    pub month: u8,
    pub day: u8,
}

/// A date whose month and day lie in the calendar's range.
pub open spec fn valid_date(d: Date) -> bool {
    1 <= d.month <= 12 && 1 <= d.day <= 31
}

impl Date {
    /// Builds a date, refusing a month or day outside the calendar's range.
    pub fn new(year: i32, month: u8, day: u8) -> (r: Option<Date>)
        ensures
            match r {
                Some(d) => d == (Date { year, month, day }) && valid_date(d),
                None => !valid_date(Date { year, month, day }),
            },
    {
        if 1 <= month && month <= 12 && 1 <= day && day <= 31 {
            Some(Date { year, month, day })
        } else {
            None
        }
    }
}

/// One tracked receipt: an uploaded document with its workflow state.
#[derive(Clone, Debug, PartialEq)]
pub struct Receipt {
    pub id: u64,
    pub name: String,
    pub state: ReceiptState,
    pub file_hash: String,
    pub category: Option<String>,
    pub payment_date: Option<Date>,
}

impl Receipt {
    /// An explicit copy whose fields equal this value's.
    pub fn duplicate(&self) -> (r: Receipt)
        ensures
            r == *self,
    {
        Receipt {
            id: self.id,
            name: self.name.clone(),
            state: self.state,
            file_hash: self.file_hash.clone(),
            category: match &self.category {
                Some(c) => Some(c.clone()),
                None => None,
            },
            payment_date: self.payment_date,
        }
    }
}

/// Payee information attached to one receipt.
#[derive(Clone, Debug, PartialEq)]
pub struct Recipient {
    pub id: u64,
    pub receipt_id: u64,
    pub name: String,
    pub iban: String,
    pub address_line1: String,
    pub address_line2: String,
    pub address_line3: String,
    pub address_line4: String,
}

impl Recipient {
    /// An explicit copy whose fields equal this value's.
    pub fn duplicate(&self) -> (r: Recipient)
        ensures
            r == *self,
    {
        Recipient {
            id: self.id,
            receipt_id: self.receipt_id,
            name: self.name.clone(),
            iban: self.iban.clone(),
            address_line1: self.address_line1.clone(),
            address_line2: self.address_line2.clone(),
            address_line3: self.address_line3.clone(),
            address_line4: self.address_line4.clone(),
        }
    }
}

/// The payee fields of a recipient, as a caller submits them; the store
/// assigns the identifiers.
#[derive(Clone, Debug, PartialEq)]
pub struct RecipientFields {
    pub name: String,
    pub iban: String,
    pub address_line1: String,
    pub address_line2: String,
    pub address_line3: String,
    pub address_line4: String,
}

impl RecipientFields {
    /// The recipient row these fields describe, under the given identifiers.
    pub open spec fn to_recipient(self, id: u64, receipt_id: u64) -> Recipient {
        Recipient {
            id,
            receipt_id,
            name: self.name,
            iban: self.iban,
            address_line1: self.address_line1,
            address_line2: self.address_line2,
            address_line3: self.address_line3,
            address_line4: self.address_line4,
        }
    }
}

/// An upload request, already drained to plain values: the declared file
/// name and the complete file bytes.
#[derive(Clone, Debug, PartialEq)]
pub struct ReceiptUploadRequest {
    pub name: String,
    pub file: Vec<u8>,
}

/// A requested state transition or field update against one receipt.
#[derive(Clone, Debug, PartialEq)]
pub enum ReceiptAction {
    Accept,
    Decline,
    Pay,
    ConfirmProcessStep(String),
    SetRecipient(RecipientFields),
    SetCategory(String),
    SetPaymentDate(Date),
}

/// What an applied action produced: the updated receipt, a domain-level
/// rejection with its explanation, or the receipt with its new recipient.
#[derive(Clone, Debug, PartialEq)]
pub enum ActionAnswer {
    Receipt(Receipt),
    Error(String),
    ReceiptAndRecipient(Receipt, Recipient),
}

/// A failed operation: the referenced receipt or blob is missing, the
/// uploaded file exceeds the configured bound, or the action has no
/// implemented effect.
#[derive(Clone, Copy, Debug, PartialEq, Eq, Structural)]
pub enum ReceiptError {
    NotFound,
    FileTooLarge,
    UnimplementedAction,
}

impl ReceiptError {
    /// The HTTP status the boundary answers this failure with: a missing
    /// resource is client-visible as 404, a refused upload as 400, and an
    /// unimplemented action stays a server-side 500.
    pub fn http_status(&self) -> (r: u16)
        ensures
            r == match *self {
                ReceiptError::NotFound => 404u16,
                ReceiptError::FileTooLarge => 400u16,
                ReceiptError::UnimplementedAction => 500u16,
            },
    {
        match self {
            ReceiptError::NotFound => 404,
            ReceiptError::FileTooLarge => 400,
            ReceiptError::UnimplementedAction => 500,
        }
    }
}

} // verus!
