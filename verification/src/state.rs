use vstd::prelude::*;
use vstd::string::StringExecFns;

verus! {

/// The six workflow states a receipt can be in.
#[derive(Clone, Copy, Debug, PartialEq, Eq, Structural)]
pub enum ReceiptState {
    Inbox,
    Valid,
    Payed,
    Declined,
    Process,
    Done,
}

/// The lower-case name under which a state is stored and displayed.
pub open spec fn state_label(s: ReceiptState) -> Seq<char> {
    match s {
        ReceiptState::Inbox => "inbox"@,
        ReceiptState::Valid => "valid"@,
        ReceiptState::Payed => "payed"@,
        ReceiptState::Declined => "declined"@,
        ReceiptState::Process => "process"@,
        ReceiptState::Done => "done"@,
    }
}

/// The state whose label is `s`, if any; the labels are pairwise distinct,
/// so at most one state matches.
pub open spec fn parsed_state(s: Seq<char>) -> Option<ReceiptState> {
    if s == "inbox"@ {
        Some(ReceiptState::Inbox)
    } else if s == "valid"@ {
        Some(ReceiptState::Valid)
    } else if s == "payed"@ {
        Some(ReceiptState::Payed)
    } else if s == "declined"@ {
        Some(ReceiptState::Declined)
    } else if s == "process"@ {
        Some(ReceiptState::Process)
    } else if s == "done"@ {
        Some(ReceiptState::Done)
    } else {
        None
    }
}

/// Failure to read a receipt state from a request parameter.
#[derive(Debug, PartialEq, Eq)]
pub enum ParseError {
    ReceiptState(String),
}

impl ParseError {
    /// The explanation shown for a name that is no state's.
    pub fn message(&self) -> (m: String)
        ensures
            match *self {
                ParseError::ReceiptState(s) => m@ == "could not parse "@ + s@
                    + " as Receipt state accepted are inbox, valid, payed, declined, process and done"@,
            },
    {
        match self {
            ParseError::ReceiptState(s) => {
                let mut m = String::from_str("could not parse ");
                m.append(s.as_str());
                m.append(
                    " as Receipt state accepted are inbox, valid, payed, declined, process and done",
                );
                m
            },
        }
    }
}

impl ReceiptState {
    /// Returns the lower-case name of the state.
    pub fn label(&self) -> (r: String)
        ensures
            r@ == state_label(*self),
    {
        match self {
            ReceiptState::Inbox => String::from_str("inbox"),
            ReceiptState::Valid => String::from_str("valid"),
            ReceiptState::Payed => String::from_str("payed"),
            ReceiptState::Declined => String::from_str("declined"),
            ReceiptState::Process => String::from_str("process"),
            ReceiptState::Done => String::from_str("done"),
        }
    }

    /// Reads a state from its lower-case name, the inverse of `label`.
    pub fn from_param(param: &str) -> (r: Result<ReceiptState, ParseError>)
        ensures
            match r {
                Ok(st) => parsed_state(param@) == Some(st),
                Err(ParseError::ReceiptState(s)) => parsed_state(param@) is None && s@
                    == param@,
            },
    {
        let p = param.to_owned();
        if p == String::from_str("inbox") {
            Ok(ReceiptState::Inbox)
        } else if p == String::from_str("valid") {
            Ok(ReceiptState::Valid)
        } else if p == String::from_str("payed") {
            Ok(ReceiptState::Payed)
        } else if p == String::from_str("declined") {
            Ok(ReceiptState::Declined)
        } else if p == String::from_str("process") {
            Ok(ReceiptState::Process)
        } else if p == String::from_str("done") {
            Ok(ReceiptState::Done)
        } else {
            Err(ParseError::ReceiptState(p))
        }
    }
}

/// Round trip: every state's label parses back to that state.
pub proof fn lemma_label_parses_back(s: ReceiptState)
    ensures
        parsed_state(state_label(s)) == Some(s),
{
    reveal_strlit("inbox");
    reveal_strlit("valid");
    reveal_strlit("payed");
    reveal_strlit("declined");
    reveal_strlit("process");
    reveal_strlit("done");
    assert("inbox"@[0] == 'i');
    assert("valid"@[0] == 'v');
    assert("payed"@[0] == 'p');
    assert("inbox"@.len() == 5);
    assert("valid"@.len() == 5);
    assert("payed"@.len() == 5);
    assert("declined"@.len() == 8);
    assert("process"@.len() == 7);
    assert("done"@.len() == 4);
    assert("valid"@ != "inbox"@);
    assert("payed"@ != "inbox"@);
    assert("payed"@ != "valid"@);
    assert("declined"@ != "inbox"@);
    assert("declined"@ != "valid"@);
    assert("declined"@ != "payed"@);
    assert("process"@ != "inbox"@);
    assert("process"@ != "valid"@);
    assert("process"@ != "payed"@);
    assert("process"@ != "declined"@);
    assert("done"@ != "inbox"@);
    assert("done"@ != "valid"@);
    assert("done"@ != "payed"@);
    assert("done"@ != "declined"@);
    assert("done"@ != "process"@);
}

} // verus!
