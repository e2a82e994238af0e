//! Commands and replies of the line protocol of the FRIB data-acquisition system.
use crate::text::same_text;
use std::ops::Deref;
use vstd::prelude::*;
use vstd::string::*;

verus! {

/// A command of the line protocol.
#[derive(Debug, PartialEq, Eq, Clone, Copy, Structural)]
pub enum FribOperation {
    Begin,
    End,
    Check,
}

/// A reply of the line protocol.
#[derive(Debug, PartialEq, Eq, Clone, Copy, Structural)]
pub enum FribStatus {
    Okay,
    Errored,
    Failed,
}

/// Text of a command.
pub open spec fn frib_operation_text(op: FribOperation) -> Seq<char> {
    match op {
        FribOperation::Begin => "begin"@,
        FribOperation::End => "end"@,
        FribOperation::Check => "get state"@,
    }
}

/// Text of a reply.
pub open spec fn frib_status_text(s: FribStatus) -> Seq<char> {
    match s {
        FribStatus::Okay => "OK"@,
        FribStatus::Errored => "ERROR"@,
        FribStatus::Failed => "FAIL"@,
    }
}

impl FribOperation {
    /// The command whose text is `value`; any other text is refused and handed back.
    pub fn from_string(value: String) -> (r: Result<FribOperation, String>)
        ensures
            r matches Ok(op) ==> frib_operation_text(op) == value@,
            r is Err <==> (forall|op: FribOperation| frib_operation_text(op) != value@),
            r matches Err(v) ==> v@ == value@,
    {
        let found = if same_text(value.deref(), "begin") {
            Some(FribOperation::Begin)
        } else if same_text(value.deref(), "end") {
            Some(FribOperation::End)
        } else if same_text(value.deref(), "get state") {
            Some(FribOperation::Check)
        } else {
            None
        };
        match found {
            Some(op) => {
                assert(frib_operation_text(op) == value@);
                Ok(op)
            },
            None => Err(value),
        }
    }

    /// Text of this command.
    pub fn to_string(&self) -> (r: String)
        ensures
            r@ == frib_operation_text(*self),
    {
        match self {
            FribOperation::Begin => String::from_str("begin"),
            FribOperation::End => String::from_str("end"),
            FribOperation::Check => String::from_str("get state"),
        }
    }
}

impl FribStatus {
    /// The reply whose text is `value`; any other text is refused and handed back.
    pub fn from_string(value: String) -> (r: Result<FribStatus, String>)
        ensures
            r matches Ok(s) ==> frib_status_text(s) == value@,
            r is Err <==> (forall|s: FribStatus| frib_status_text(s) != value@),
            r matches Err(v) ==> v@ == value@,
    {
        let found = if same_text(value.deref(), "OK") {
            Some(FribStatus::Okay)
        } else if same_text(value.deref(), "ERROR") {
            Some(FribStatus::Errored)
        } else if same_text(value.deref(), "FAIL") {
            Some(FribStatus::Failed)
        } else {
            None
        };
        match found {
            Some(s) => {
                assert(frib_status_text(s) == value@);
                Ok(s)
            },
            None => Err(value),
        }
    }

    /// Text of this reply.
    pub fn to_string(&self) -> (r: String)
        ensures
            r@ == frib_status_text(*self),
    {
        match self {
            FribStatus::Okay => String::from_str("OK"),
            FribStatus::Errored => String::from_str("ERROR"),
            FribStatus::Failed => String::from_str("FAIL"),
        }
    }
}

} // verus!
