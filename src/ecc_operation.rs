//! The state machine of one control module: its states, the operations that move it between
//! states, and the conversions of both to and from their wire forms.
use crate::error::ConversionError;
use crate::text::same_text;
use std::ops::Deref;
use vstd::prelude::*;
use vstd::string::*;

verus! {

/// The state of one control module.
#[derive(Debug, PartialEq, Eq, Clone, Copy, Structural)]
pub enum ECCStatus {
    Offline,
    Busy,
    Idle,
    Prepared,
    Described,
    Ready,
    Running,
    ErrorStat,
    Inconsistent,
}

/// An operation that moves a control module from one state to another.
#[derive(Debug, PartialEq, Eq, Clone, Copy, Structural)]
pub enum ECCOperation {
    Describe,
    Prepare,
    Configure,
    Start,
    Undo,
    Breakup,
    Stop,
    Invalid,
}

/// Canonical name of a state.
pub open spec fn status_name(s: ECCStatus) -> Seq<char> {
    match s {
        ECCStatus::Offline => "Offline"@,
        ECCStatus::Busy => "Busy"@,
        ECCStatus::Idle => "Idle"@,
        ECCStatus::Prepared => "Prepared"@,
        ECCStatus::Described => "Described"@,
        ECCStatus::Ready => "Ready"@,
        ECCStatus::Running => "Running"@,
        ECCStatus::ErrorStat => "Error"@,
        ECCStatus::Inconsistent => "Inconsistent"@,
    }
}

/// Integer code of a state on the wire; the two locally derived states share `-1`.
pub open spec fn status_code(s: ECCStatus) -> i32 {
    match s {
        ECCStatus::Offline => 0i32,
        ECCStatus::Idle => 1i32,
        ECCStatus::Described => 2i32,
        ECCStatus::Prepared => 3i32,
        ECCStatus::Ready => 4i32,
        ECCStatus::Running => 5i32,
        ECCStatus::Busy => 6i32,
        ECCStatus::ErrorStat => -1i32,
        ECCStatus::Inconsistent => -1i32,
    }
}

/// State named by an integer code; every unknown code means `ErrorStat`.
pub open spec fn status_of_code(code: i32) -> ECCStatus {
    if code == 0 {
        ECCStatus::Offline
    } else if code == 1 {
        ECCStatus::Idle
    } else if code == 2 {
        ECCStatus::Described
    } else if code == 3 {
        ECCStatus::Prepared
    } else if code == 4 {
        ECCStatus::Ready
    } else if code == 5 {
        ECCStatus::Running
    } else if code == 6 {
        ECCStatus::Busy
    } else {
        ECCStatus::ErrorStat
    }
}

/// Operation that advances a module out of a state.
pub open spec fn forward_of(s: ECCStatus) -> ECCOperation {
    match s {
        ECCStatus::Idle => ECCOperation::Describe,
        ECCStatus::Described => ECCOperation::Prepare,
        ECCStatus::Prepared => ECCOperation::Configure,
        _ => ECCOperation::Invalid,
    }
}

/// Operation that regresses a module out of a state.
pub open spec fn backward_of(s: ECCStatus) -> ECCOperation {
    match s {
        ECCStatus::Ready => ECCOperation::Breakup,
        ECCStatus::Prepared => ECCOperation::Undo,
        ECCStatus::Described => ECCOperation::Undo,
        _ => ECCOperation::Invalid,
    }
}

/// States from which a module may advance.
pub open spec fn forward_capable(s: ECCStatus) -> bool {
    s is Idle || s is Described || s is Prepared
}

/// States from which a module may regress.
pub open spec fn backward_capable(s: ECCStatus) -> bool {
    s is Ready || s is Prepared || s is Described
}

/// Canonical name of an operation.
pub open spec fn operation_name(op: ECCOperation) -> Seq<char> {
    match op {
        ECCOperation::Describe => "Describe"@,
        ECCOperation::Prepare => "Prepare"@,
        ECCOperation::Configure => "Configure"@,
        ECCOperation::Start => "Start"@,
        ECCOperation::Undo => "Undo"@,
        ECCOperation::Breakup => "Breakup"@,
        ECCOperation::Stop => "Stop"@,
        ECCOperation::Invalid => "Invalid"@,
    }
}

/// Distinct states have distinct names.
pub proof fn lemma_status_name_injective(s: ECCStatus)
    ensures
        forall|o: ECCStatus| status_name(o) == status_name(s) ==> o == s,
{
    reveal_strlit("Offline");
    reveal_strlit("Busy");
    reveal_strlit("Idle");
    reveal_strlit("Prepared");
    reveal_strlit("Described");
    reveal_strlit("Ready");
    reveal_strlit("Running");
    reveal_strlit("Error");
    reveal_strlit("Inconsistent");
    assert forall|o: ECCStatus| status_name(o) == status_name(s) implies o == s by {
        assert(status_name(o).len() == status_name(s).len());
        assert(status_name(o)[0] == status_name(s)[0]);
    }
}

/// Distinct operations have distinct names.
pub proof fn lemma_operation_name_injective(op: ECCOperation)
    ensures
        forall|o: ECCOperation| operation_name(o) == operation_name(op) ==> o == op,
{
    reveal_strlit("Describe");
    reveal_strlit("Prepare");
    reveal_strlit("Configure");
    reveal_strlit("Start");
    reveal_strlit("Undo");
    reveal_strlit("Breakup");
    reveal_strlit("Stop");
    reveal_strlit("Invalid");
    assert forall|o: ECCOperation| operation_name(o) == operation_name(op) implies o == op by {
        assert(operation_name(o).len() == operation_name(op).len());
        assert(operation_name(o)[0] == operation_name(op)[0]);
    }
}

/// A state can advance exactly when it has a forward operation, and can regress exactly when
/// it has a backward operation.
pub proof fn lemma_capability_matches_operation(s: ECCStatus)
    ensures
        forward_capable(s) <==> forward_of(s) != ECCOperation::Invalid,
        backward_capable(s) <==> backward_of(s) != ECCOperation::Invalid,
{
}

/// A state read back from its name is that state, and so is a state read back from its code,
/// but for `Inconsistent`, which shares its code with `ErrorStat`.
pub proof fn lemma_status_round_trip(s: ECCStatus)
    ensures
        forall|t: ECCStatus| status_name(t) == status_name(s) ==> t == s,
        s != ECCStatus::Inconsistent ==> status_of_code(status_code(s)) == s,
        status_of_code(status_code(ECCStatus::Inconsistent)) == ECCStatus::ErrorStat,
{
    lemma_status_name_injective(s);
}

/// An operation read back from its name is that operation.
pub proof fn lemma_operation_text_round_trip(op: ECCOperation)
    ensures
        forall|o: ECCOperation| operation_name(o) == operation_name(op) ==> o == op,
{
    lemma_operation_name_injective(op);
}

impl ECCStatus {
    /// Canonical name of this state.
    pub fn to_string(&self) -> (r: String)
        ensures
            r@ == status_name(*self),
    {
        match self {
            ECCStatus::Offline => String::from_str("Offline"),
            ECCStatus::Busy => String::from_str("Busy"),
            ECCStatus::Idle => String::from_str("Idle"),
            ECCStatus::Prepared => String::from_str("Prepared"),
            ECCStatus::Described => String::from_str("Described"),
            ECCStatus::Ready => String::from_str("Ready"),
            ECCStatus::Running => String::from_str("Running"),
            ECCStatus::ErrorStat => String::from_str("Error"),
            ECCStatus::Inconsistent => String::from_str("Inconsistent"),
        }
    }

    /// The state whose canonical name is `value`; any other text is refused.
    pub fn from_string(value: String) -> (r: Result<ECCStatus, ConversionError>)
        ensures
            r matches Ok(s) ==> status_name(s) == value@,
            r is Err <==> (forall|s: ECCStatus| status_name(s) != value@),
            r matches Err(ConversionError::BadString(v)) ==> v@ == value@,
    {
        proof {
            reveal_strlit("Offline");
            reveal_strlit("Busy");
            reveal_strlit("Idle");
            reveal_strlit("Prepared");
            reveal_strlit("Described");
            reveal_strlit("Ready");
            reveal_strlit("Running");
            reveal_strlit("Error");
            reveal_strlit("Inconsistent");
        }
        let found = {
            let t: &str = value.deref();
            if same_text(t, "Offline") {
                Some(ECCStatus::Offline)
            } else if same_text(t, "Busy") {
                Some(ECCStatus::Busy)
            } else if same_text(t, "Idle") {
                Some(ECCStatus::Idle)
            } else if same_text(t, "Prepared") {
                Some(ECCStatus::Prepared)
            } else if same_text(t, "Described") {
                Some(ECCStatus::Described)
            } else if same_text(t, "Ready") {
                Some(ECCStatus::Ready)
            } else if same_text(t, "Running") {
                Some(ECCStatus::Running)
            } else if same_text(t, "Error") {
                Some(ECCStatus::ErrorStat)
            } else if same_text(t, "Inconsistent") {
                Some(ECCStatus::Inconsistent)
            } else {
                None
            }
        };
        match found {
            Some(s) => {
                assert(status_name(s) == value@);
                Ok(s)
            },
            None => {
                assert forall|s: ECCStatus| status_name(s) != value@ by {
                    match s {
                        ECCStatus::Offline => {},
                        _ => {},
                    }
                }
                Err(ConversionError::BadString(value))
            },
        }
    }

    /// Integer code of this state on the wire.
    pub fn to_code(&self) -> (r: i32)
        ensures
            r == status_code(*self),
    {
        match self {
            ECCStatus::Offline => 0,
            ECCStatus::Idle => 1,
            ECCStatus::Described => 2,
            ECCStatus::Prepared => 3,
            ECCStatus::Ready => 4,
            ECCStatus::Running => 5,
            ECCStatus::Busy => 6,
            _ => -1,
        }
    }

    /// The state named by an integer code; unknown codes give `ErrorStat`.
    pub fn from_code(code: i32) -> (r: ECCStatus)
        ensures
            r == status_of_code(code),
    {
        match code {
            0 => ECCStatus::Offline,
            1 => ECCStatus::Idle,
            2 => ECCStatus::Described,
            3 => ECCStatus::Prepared,
            4 => ECCStatus::Ready,
            5 => ECCStatus::Running,
            6 => ECCStatus::Busy,
            _ => ECCStatus::ErrorStat,
        }
    }

    /// The operation associated with progressing a module out of this state.
    pub fn get_forward_operation(&self) -> (r: ECCOperation)
        ensures
            r == forward_of(*self),
    {
        match self {
            ECCStatus::Idle => ECCOperation::Describe,
            ECCStatus::Described => ECCOperation::Prepare,
            ECCStatus::Prepared => ECCOperation::Configure,
            _ => ECCOperation::Invalid,
        }
    }

    /// The operation associated with regressing a module out of this state.
    pub fn get_backward_operation(&self) -> (r: ECCOperation)
        ensures
            r == backward_of(*self),
    {
        match self {
            ECCStatus::Ready => ECCOperation::Breakup,
            ECCStatus::Prepared => ECCOperation::Undo,
            ECCStatus::Described => ECCOperation::Undo,
            _ => ECCOperation::Invalid,
        }
    }

    /// Whether a module in this state can progress.
    pub fn can_go_forward(&self) -> (r: bool)
        ensures
            r == forward_capable(*self),
    {
        match self {
            ECCStatus::Idle | ECCStatus::Described | ECCStatus::Prepared => true,
            _ => false,
        }
    }

    /// Whether a module in this state can regress.
    pub fn can_go_backward(&self) -> (r: bool)
        ensures
            r == backward_capable(*self),
    {
        match self {
            ECCStatus::Ready | ECCStatus::Prepared | ECCStatus::Described => true,
            _ => false,
        }
    }
}

impl ECCOperation {
    /// Canonical name of this operation.
    pub fn to_string(&self) -> (r: String)
        ensures
            r@ == operation_name(*self),
    {
        match self {
            ECCOperation::Describe => String::from_str("Describe"),
            ECCOperation::Prepare => String::from_str("Prepare"),
            ECCOperation::Configure => String::from_str("Configure"),
            ECCOperation::Start => String::from_str("Start"),
            ECCOperation::Undo => String::from_str("Undo"),
            ECCOperation::Breakup => String::from_str("Breakup"),
            ECCOperation::Stop => String::from_str("Stop"),
            ECCOperation::Invalid => String::from_str("Invalid"),
        }
    }

    /// The operation whose canonical name is `value`; any other text is refused.
    pub fn from_string(value: String) -> (r: Result<ECCOperation, ConversionError>)
        ensures
            r matches Ok(op) ==> operation_name(op) == value@,
            r is Err <==> (forall|op: ECCOperation| operation_name(op) != value@),
            r matches Err(ConversionError::BadString(v)) ==> v@ == value@,
    {
        proof {
            reveal_strlit("Describe");
            reveal_strlit("Prepare");
            reveal_strlit("Configure");
            reveal_strlit("Start");
            reveal_strlit("Undo");
            reveal_strlit("Breakup");
            reveal_strlit("Stop");
            reveal_strlit("Invalid");
        }
        let found = {
            let t: &str = value.deref();
            if same_text(t, "Describe") {
                Some(ECCOperation::Describe)
            } else if same_text(t, "Prepare") {
                Some(ECCOperation::Prepare)
            } else if same_text(t, "Configure") {
                Some(ECCOperation::Configure)
            } else if same_text(t, "Start") {
                Some(ECCOperation::Start)
            } else if same_text(t, "Undo") {
                Some(ECCOperation::Undo)
            } else if same_text(t, "Breakup") {
                Some(ECCOperation::Breakup)
            } else if same_text(t, "Stop") {
                Some(ECCOperation::Stop)
            } else if same_text(t, "Invalid") {
                Some(ECCOperation::Invalid)
            } else {
                None
            }
        };
        match found {
            Some(op) => {
                assert(operation_name(op) == value@);
                Ok(op)
            },
            None => {
                assert forall|op: ECCOperation| operation_name(op) != value@ by {
                    match op {
                        ECCOperation::Describe => {},
                        _ => {},
                    }
                }
                Err(ConversionError::BadString(value))
            },
        }
    }
}

} // verus!
