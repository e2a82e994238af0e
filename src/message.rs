//! The envelope that carries every message between the controller and the envoys, and the
//! bodies of each kind of message.
use crate::codec::{
    int_field, lemma_read_int, lemma_read_text, lemma_read_u64, push_int, push_text, push_u64,
    read_int, read_int_at, read_text, read_text_at, read_u64, read_u64_at, string_chars,
    text_field, u64_field,
};
use crate::ecc_envoy::{
    default_status, ECCOperationResponse, ECCStatusResponse, OperationResponseRecord,
    StatusRecord,
};
use crate::ecc_operation::{lemma_operation_name_injective, operation_name, ECCOperation};
use crate::error::EmbassyError;
use crate::sentry_types::{
    SentryOperation, SentryOperationRecord, SentryParameters, SentryRecord, SentryStatus,
};
use crate::text::same_text;
use std::ops::Deref;
use vstd::prelude::*;
use vstd::string::*;

verus! {

/// The kinds of message that travel over the bus.
#[derive(Debug, PartialEq, Eq, Clone, Copy, Structural)]
pub enum MessageKind {
    ECCOperation,
    ECCOpResponse,
    ECCStatus,
    SentryOperation,
    SentryStatus,
    Cancel,
}

/// Canonical name of a message kind.
pub open spec fn kind_name(k: MessageKind) -> Seq<char> {
    match k {
        MessageKind::ECCOperation => "ECCOperation"@,
        MessageKind::ECCOpResponse => "ECCOpResponse"@,
        MessageKind::ECCStatus => "ECCStatus"@,
        MessageKind::SentryOperation => "SentryOperation"@,
        MessageKind::SentryStatus => "SentryStatus"@,
        MessageKind::Cancel => "Cancel"@,
    }
}

impl MessageKind {
    /// Canonical name of this kind.
    pub fn to_string(&self) -> (r: String)
        ensures
            r@ == kind_name(*self),
    {
        match self {
            MessageKind::ECCOperation => String::from_str("ECCOperation"),
            MessageKind::ECCOpResponse => String::from_str("ECCOpResponse"),
            MessageKind::ECCStatus => String::from_str("ECCStatus"),
            MessageKind::SentryOperation => String::from_str("SentryOperation"),
            MessageKind::SentryStatus => String::from_str("SentryStatus"),
            MessageKind::Cancel => String::from_str("Cancel"),
        }
    }
}

/// A value that travels in a message of a fixed kind.
pub trait ToMessage {
    spec fn spec_kind(&self) -> MessageKind;

    fn message_kind(&self) -> (k: MessageKind)
        ensures
            k == self.spec_kind(),
    ;
}

/// A message on the bus: its kind, the module it concerns, and its encoded body.
#[derive(Debug, Clone)]
pub struct EmbassyMessage {
    pub kind: MessageKind,
    pub id: usize,
    pub body: String,
}

/// The value of a message.
pub struct MessageView {
    pub kind: MessageKind,
    pub id: usize,
    pub body: Seq<char>,
}

impl View for EmbassyMessage {
    type V = MessageView;

    open spec fn view(&self) -> MessageView {
        MessageView { kind: self.kind, id: self.id, body: self.body@ }
    }
}

/// Body of an operation request.
pub open spec fn operation_body(op: ECCOperation) -> Seq<char> {
    text_field(operation_name(op))
}

/// Body of a module status.
pub open spec fn status_body(r: StatusRecord) -> Seq<char> {
    int_field(r.error_code) + text_field(r.error_message) + int_field(r.state) + int_field(
        r.transition,
    )
}

/// Body of an operation outcome.
pub open spec fn op_response_body(r: OperationResponseRecord) -> Seq<char> {
    int_field(r.error_code) + text_field(r.error_message) + text_field(r.text)
}

/// Body of a monitor snapshot.
pub open spec fn sentry_status_body(r: SentryRecord) -> Seq<char> {
    text_field(r.disk) + text_field(r.process) + text_field(r.data_path) + int_field(
        r.data_path_files,
    ) + u64_field(r.data_written_gb_bits) + u64_field(r.disk_avail_gb_bits) + u64_field(
        r.disk_total_gb_bits,
    ) + u64_field(r.data_rate_mb_bits)
}

/// Name of a monitor operation in its body.
pub open spec fn sentry_operation_name(is_catalog: bool) -> Seq<char> {
    if is_catalog {
        "Catalog"@
    } else {
        "Backup"@
    }
}

/// Body of a monitor operation.
pub open spec fn sentry_operation_body(r: SentryOperationRecord) -> Seq<char> {
    text_field(sentry_operation_name(r.is_catalog)) + text_field(r.experiment) + int_field(
        r.run_number,
    )
}

/// The operation that a body names, if it is the body of one.
pub open spec fn decode_operation(s: Seq<char>) -> Option<ECCOperation> {
    match read_text(s, 0) {
        Some((name, p)) => if p == s.len() && exists|op: ECCOperation| operation_name(op) == name {
            Some(choose|op: ECCOperation| operation_name(op) == name)
        } else {
            None
        },
        None => None,
    }
}

/// The module status that a body holds, if it is the body of one.
pub open spec fn decode_status(s: Seq<char>) -> Option<StatusRecord> {
    match read_int(s, 0) {
        Some((code, p1)) => match read_text(s, p1) {
            Some((msg, p2)) => match read_int(s, p2) {
                Some((state, p3)) => match read_int(s, p3) {
                    Some((transition, p4)) => if p4 == s.len() {
                        Some(
                            StatusRecord { error_code: code, error_message: msg, state, transition },
                        )
                    } else {
                        None
                    },
                    None => None,
                },
                None => None,
            },
            None => None,
        },
        None => None,
    }
}

/// The operation outcome that a body holds, if it is the body of one.
pub open spec fn decode_op_response(s: Seq<char>) -> Option<OperationResponseRecord> {
    match read_int(s, 0) {
        Some((code, p1)) => match read_text(s, p1) {
            Some((msg, p2)) => match read_text(s, p2) {
                Some((text, p3)) => if p3 == s.len() {
                    Some(OperationResponseRecord { error_code: code, error_message: msg, text })
                } else {
                    None
                },
                None => None,
            },
            None => None,
        },
        None => None,
    }
}

/// The monitor snapshot that a body holds, if it is the body of one.
pub open spec fn decode_sentry_status(s: Seq<char>) -> Option<SentryRecord> {
    match read_text(s, 0) {
        Some((disk, p1)) => match read_text(s, p1) {
            Some((process, p2)) => match read_text(s, p2) {
                Some((data_path, p3)) => match read_int(s, p3) {
                    Some((files, p4)) => match read_u64(s, p4) {
                        Some((written, p5)) => match read_u64(s, p5) {
                            Some((avail, p6)) => match read_u64(s, p6) {
                                Some((total, p7)) => match read_u64(s, p7) {
                                    Some((rate, p8)) => if p8 == s.len() {
                                        Some(
                                            SentryRecord {
                                                disk,
                                                process,
                                                data_path,
                                                data_path_files: files,
                                                data_written_gb_bits: written,
                                                disk_avail_gb_bits: avail,
                                                disk_total_gb_bits: total,
                                                data_rate_mb_bits: rate,
                                            },
                                        )
                                    } else {
                                        None
                                    },
                                    None => None,
                                },
                                None => None,
                            },
                            None => None,
                        },
                        None => None,
                    },
                    None => None,
                },
                None => None,
            },
            None => None,
        },
        None => None,
    }
}

/// The monitor operation that a body holds, if it is the body of one.
pub open spec fn decode_sentry_operation(s: Seq<char>) -> Option<SentryOperationRecord> {
    match read_text(s, 0) {
        Some((name, p1)) => match read_text(s, p1) {
            Some((experiment, p2)) => match read_int(s, p2) {
                Some((run_number, p3)) => if p3 == s.len() && (name == "Catalog"@ || name
                    == "Backup"@) {
                    Some(
                        SentryOperationRecord {
                            is_catalog: name == "Catalog"@,
                            experiment,
                            run_number,
                        },
                    )
                } else {
                    None
                },
                None => None,
            },
            None => None,
        },
        None => None,
    }
}

/// Every text of a module status fits in a field.
pub open spec fn status_encodable(r: StatusRecord) -> bool {
    r.error_message.len() <= u32::MAX
}

/// Every text of an operation outcome fits in a field.
pub open spec fn op_response_encodable(r: OperationResponseRecord) -> bool {
    r.error_message.len() <= u32::MAX && r.text.len() <= u32::MAX
}

/// Every text of a monitor snapshot fits in a field.
pub open spec fn sentry_status_encodable(r: SentryRecord) -> bool {
    r.disk.len() <= u32::MAX && r.process.len() <= u32::MAX && r.data_path.len() <= u32::MAX
}

/// Every text of a monitor operation fits in a field.
pub open spec fn sentry_operation_encodable(r: SentryOperationRecord) -> bool {
    r.experiment.len() <= u32::MAX
}

/// A module status read back from its body is the status that was written.
pub proof fn lemma_status_round_trip(r: StatusRecord)
    requires
        status_encodable(r),
    ensures
        decode_status(status_body(r)) == Some(r),
{
    let a = int_field(r.error_code);
    let b = text_field(r.error_message);
    let c = int_field(r.state);
    let d = int_field(r.transition);
    let s = status_body(r);
    let m = r.error_message.len() as int;
    assert(s =~= a + b + c + d);
    assert(s.subrange(0, 8) =~= a);
    lemma_read_int(s, 0, r.error_code);
    assert(s.subrange(8, 16 + m) =~= b);
    lemma_read_text(s, 8, r.error_message);
    assert(s.subrange(16 + m, 24 + m) =~= c);
    lemma_read_int(s, 16 + m, r.state);
    assert(s.subrange(24 + m, 32 + m) =~= d);
    lemma_read_int(s, 24 + m, r.transition);
}

/// An operation outcome read back from its body is the outcome that was written.
pub proof fn lemma_op_response_round_trip(r: OperationResponseRecord)
    requires
        op_response_encodable(r),
    ensures
        decode_op_response(op_response_body(r)) == Some(r),
{
    let a = int_field(r.error_code);
    let b = text_field(r.error_message);
    let c = text_field(r.text);
    let s = op_response_body(r);
    let m = r.error_message.len() as int;
    let t = r.text.len() as int;
    assert(s.subrange(0, 8) =~= a);
    lemma_read_int(s, 0, r.error_code);
    assert(s.subrange(8, 16 + m) =~= b);
    lemma_read_text(s, 8, r.error_message);
    assert(s.subrange(16 + m, 24 + m + t) =~= c);
    lemma_read_text(s, 16 + m, r.text);
}

/// A monitor snapshot read back from its body is the snapshot that was written.
#[verifier::spinoff_prover]
#[verifier::rlimit(100)]
pub proof fn lemma_sentry_status_round_trip(r: SentryRecord)
    requires
        sentry_status_encodable(r),
    ensures
        decode_sentry_status(sentry_status_body(r)) == Some(r),
{
    let s = sentry_status_body(r);
    let a = r.disk.len() as int;
    let b = r.process.len() as int;
    let c = r.data_path.len() as int;
    let p1 = 8 + a;
    let p2 = p1 + 8 + b;
    let p3 = p2 + 8 + c;
    let p4 = p3 + 8;
    assert(s.subrange(0, p1) =~= text_field(r.disk));
    lemma_read_text(s, 0, r.disk);
    assert(s.subrange(p1, p2) =~= text_field(r.process));
    lemma_read_text(s, p1, r.process);
    assert(s.subrange(p2, p3) =~= text_field(r.data_path));
    lemma_read_text(s, p2, r.data_path);
    assert(s.subrange(p3, p4) =~= int_field(r.data_path_files));
    lemma_read_int(s, p3, r.data_path_files);
    assert(s.subrange(p4, p4 + 16) =~= u64_field(r.data_written_gb_bits));
    lemma_read_u64(s, p4, r.data_written_gb_bits);
    assert(s.subrange(p4 + 16, p4 + 32) =~= u64_field(r.disk_avail_gb_bits));
    lemma_read_u64(s, p4 + 16, r.disk_avail_gb_bits);
    assert(s.subrange(p4 + 32, p4 + 48) =~= u64_field(r.disk_total_gb_bits));
    lemma_read_u64(s, p4 + 32, r.disk_total_gb_bits);
    assert(s.subrange(p4 + 48, p4 + 64) =~= u64_field(r.data_rate_mb_bits));
    lemma_read_u64(s, p4 + 48, r.data_rate_mb_bits);
}

/// A monitor operation read back from its body is the operation that was written.
pub proof fn lemma_sentry_operation_round_trip(r: SentryOperationRecord)
    requires
        sentry_operation_encodable(r),
    ensures
        decode_sentry_operation(sentry_operation_body(r)) == Some(r),
{
    reveal_strlit("Catalog");
    reveal_strlit("Backup");
    let s = sentry_operation_body(r);
    let name = sentry_operation_name(r.is_catalog);
    let n = name.len() as int;
    let e = r.experiment.len() as int;
    assert(s.subrange(0, 8 + n) =~= text_field(name));
    lemma_read_text(s, 0, name);
    assert(s.subrange(8 + n, 16 + n + e) =~= text_field(r.experiment));
    lemma_read_text(s, 8 + n, r.experiment);
    assert(s.subrange(16 + n + e, 24 + n + e) =~= int_field(r.run_number));
    lemma_read_int(s, 16 + n + e, r.run_number);
}

/// An operation read back from its body is the operation that was written.
pub proof fn lemma_operation_round_trip(op: ECCOperation)
    ensures
        decode_operation(operation_body(op)) == Some(op),
{
    reveal_strlit("Describe");
    reveal_strlit("Prepare");
    reveal_strlit("Configure");
    reveal_strlit("Start");
    reveal_strlit("Undo");
    reveal_strlit("Breakup");
    reveal_strlit("Stop");
    reveal_strlit("Invalid");
    let name = operation_name(op);
    let s = operation_body(op);
    assert(s.subrange(0, 8 + name.len() as int) =~= text_field(name));
    lemma_read_text(s, 0, name);
    let c = choose|o: ECCOperation| operation_name(o) == name;
    assert(operation_name(c) == name);
    lemma_operation_name_injective(op);
}

impl EmbassyMessage {
    /// The message that tells every envoy to stop.
    pub fn compose_cancel() -> (m: Self)
        ensures
            m.kind == MessageKind::Cancel,
            m.id == 0,
            m.body@ == "Cancel"@,
    {
        EmbassyMessage { kind: MessageKind::Cancel, id: 0, body: String::from_str("Cancel") }
    }

    /// A request that module `id` perform `op`.
    pub fn compose_operation(op: ECCOperation, id: usize) -> (m: Self)
        ensures
            m.kind == MessageKind::ECCOperation,
            m.id == id,
            m.body@ == operation_body(op),
    {
        let name = op.to_string();
        proof {
            reveal_strlit("Describe");
            reveal_strlit("Prepare");
            reveal_strlit("Configure");
            reveal_strlit("Start");
            reveal_strlit("Undo");
            reveal_strlit("Breakup");
            reveal_strlit("Stop");
            reveal_strlit("Invalid");
        }
        let mut body = String::new();
        push_text(&mut body, name.deref());
        assert(body@ =~= operation_body(op));
        EmbassyMessage { kind: MessageKind::ECCOperation, id, body }
    }

    /// The status of module `id` as a message.
    pub fn compose_status(status: &ECCStatusResponse, id: usize) -> (m: Self)
        requires
            status_encodable(status@),
        ensures
            m.kind == MessageKind::ECCStatus,
            m.id == id,
            m.body@ == status_body(status@),
    {
        let mut body = String::new();
        push_int(&mut body, status.error_code);
        push_text(&mut body, status.error_message.deref());
        push_int(&mut body, status.state);
        push_int(&mut body, status.transition);
        assert(body@ =~= status_body(status@));
        EmbassyMessage { kind: MessageKind::ECCStatus, id, body }
    }

    /// What a status poll of module `id` reports: the status it read, or, when the poll
    /// failed, the default status, whose state is Offline.
    pub fn compose_polled_status(polled: Option<ECCStatusResponse>, id: usize) -> (m: Self)
        requires
            polled matches Some(s) ==> status_encodable(s@),
        ensures
            m.kind == MessageKind::ECCStatus,
            m.id == id,
            m.body@ == status_body(
                match polled {
                    Some(s) => s@,
                    None => default_status(),
                },
            ),
    {
        match polled {
            Some(status) => Self::compose_status(&status, id),
            None => Self::compose_status(&ECCStatusResponse::default(), id),
        }
    }

    /// The outcome of an operation on module `id` as a message.
    pub fn compose_op_response(response: &ECCOperationResponse, id: usize) -> (m: Self)
        requires
            op_response_encodable(response@),
        ensures
            m.kind == MessageKind::ECCOpResponse,
            m.id == id,
            m.body@ == op_response_body(response@),
    {
        let mut body = String::new();
        push_int(&mut body, response.error_code);
        push_text(&mut body, response.error_message.deref());
        push_text(&mut body, response.text.deref());
        assert(body@ =~= op_response_body(response@));
        EmbassyMessage { kind: MessageKind::ECCOpResponse, id, body }
    }

    /// The snapshot of monitor `id` as a message.
    pub fn compose_sentry_status(status: &SentryStatus, id: usize) -> (m: Self)
        requires
            sentry_status_encodable(status@),
        ensures
            m.kind == MessageKind::SentryStatus,
            m.id == id,
            m.body@ == sentry_status_body(status@),
    {
        let mut body = String::new();
        push_text(&mut body, status.disk.deref());
        push_text(&mut body, status.process.deref());
        push_text(&mut body, status.data_path.deref());
        push_int(&mut body, status.data_path_files);
        push_u64(&mut body, status.data_written_gb_bits);
        push_u64(&mut body, status.disk_avail_gb_bits);
        push_u64(&mut body, status.disk_total_gb_bits);
        push_u64(&mut body, status.data_rate_mb_bits);
        assert(body@ =~= sentry_status_body(status@));
        EmbassyMessage { kind: MessageKind::SentryStatus, id, body }
    }

    /// A monitor operation addressed to module `id` as a message.
    pub fn compose_sentry_operation(operation: &SentryOperation, id: usize) -> (m: Self)
        requires
            sentry_operation_encodable(operation@),
        ensures
            m.kind == MessageKind::SentryOperation,
            m.id == id,
            m.body@ == sentry_operation_body(operation@),
    {
        proof {
            reveal_strlit("Catalog");
            reveal_strlit("Backup");
        }
        let mut body = String::new();
        let params = match operation {
            SentryOperation::Catalog(p) => {
                push_text(&mut body, "Catalog");
                p
            },
            SentryOperation::Backup(p) => {
                push_text(&mut body, "Backup");
                p
            },
        };
        push_text(&mut body, params.experiment.deref());
        push_int(&mut body, params.run_number);
        assert(body@ =~= sentry_operation_body(operation@));
        EmbassyMessage { kind: MessageKind::SentryOperation, id, body }
    }

    /// The operation that this message requests.
    pub fn to_ecc_operation(&self) -> (r: Result<ECCOperation, EmbassyError>)
        ensures
            self.kind != MessageKind::ECCOperation ==> r == Err::<ECCOperation, EmbassyError>(
                EmbassyError::InvalidKind(MessageKind::ECCOperation, self.kind),
            ),
            self.kind == MessageKind::ECCOperation ==> match decode_operation(self.body@) {
                Some(op) => r == Ok::<ECCOperation, EmbassyError>(op),
                None => r == Err::<ECCOperation, EmbassyError>(
                    EmbassyError::FailedParse(MessageKind::ECCOperation),
                ),
            },
    {
        if self.kind != MessageKind::ECCOperation {
            return Err(EmbassyError::InvalidKind(MessageKind::ECCOperation, self.kind));
        }
        let chars = string_chars(&self.body);
        match read_text_at(&chars, 0) {
            Some((name, p)) => {
                if p != chars.len() {
                    return Err(EmbassyError::FailedParse(MessageKind::ECCOperation));
                }
                let ghost text = name@;
                match ECCOperation::from_string(name) {
                    Ok(op) => {
                        proof {
                            lemma_operation_name_injective(op);
                            let c = choose|o: ECCOperation| operation_name(o) == text;
                            assert(operation_name(c) == text);
                        }
                        Ok(op)
                    },
                    Err(_) => Err(EmbassyError::FailedParse(MessageKind::ECCOperation)),
                }
            },
            None => Err(EmbassyError::FailedParse(MessageKind::ECCOperation)),
        }
    }

    /// The module status that this message carries.
    pub fn to_ecc_status_response(&self) -> (r: Result<ECCStatusResponse, EmbassyError>)
        ensures
            self.kind != MessageKind::ECCStatus ==> r is Err && r->Err_0 == EmbassyError::InvalidKind(
                MessageKind::ECCStatus,
                self.kind,
            ),
            self.kind == MessageKind::ECCStatus ==> match decode_status(self.body@) {
                Some(v) => r is Ok && r->Ok_0@ == v,
                None => r is Err && r->Err_0 == EmbassyError::FailedParse(MessageKind::ECCStatus),
            },
    {
        if self.kind != MessageKind::ECCStatus {
            return Err(EmbassyError::InvalidKind(MessageKind::ECCStatus, self.kind));
        }
        let s = string_chars(&self.body);
        let failed = Err(EmbassyError::FailedParse(MessageKind::ECCStatus));
        let (error_code, p1) = match read_int_at(&s, 0) {
            Some(x) => x,
            None => return failed,
        };
        let (error_message, p2) = match read_text_at(&s, p1) {
            Some(x) => x,
            None => return failed,
        };
        let (state, p3) = match read_int_at(&s, p2) {
            Some(x) => x,
            None => return failed,
        };
        let (transition, p4) = match read_int_at(&s, p3) {
            Some(x) => x,
            None => return failed,
        };
        if p4 != s.len() {
            return failed;
        }
        Ok(ECCStatusResponse { error_code, error_message, state, transition })
    }

    /// The operation outcome that this message carries.
    pub fn to_ecc_operation_response(&self) -> (r: Result<ECCOperationResponse, EmbassyError>)
        ensures
            self.kind != MessageKind::ECCOpResponse ==> r is Err && r->Err_0
                == EmbassyError::InvalidKind(MessageKind::ECCOpResponse, self.kind),
            self.kind == MessageKind::ECCOpResponse ==> match decode_op_response(self.body@) {
                Some(v) => r is Ok && r->Ok_0@ == v,
                None => r is Err && r->Err_0 == EmbassyError::FailedParse(
                    MessageKind::ECCOpResponse,
                ),
            },
    {
        if self.kind != MessageKind::ECCOpResponse {
            return Err(EmbassyError::InvalidKind(MessageKind::ECCOpResponse, self.kind));
        }
        let s = string_chars(&self.body);
        let failed = Err(EmbassyError::FailedParse(MessageKind::ECCOpResponse));
        let (error_code, p1) = match read_int_at(&s, 0) {
            Some(x) => x,
            None => return failed,
        };
        let (error_message, p2) = match read_text_at(&s, p1) {
            Some(x) => x,
            None => return failed,
        };
        let (text, p3) = match read_text_at(&s, p2) {
            Some(x) => x,
            None => return failed,
        };
        if p3 != s.len() {
            return failed;
        }
        Ok(ECCOperationResponse { error_code, error_message, text })
    }

    /// The monitor snapshot that this message carries.
    pub fn to_sentry_status(&self) -> (r: Result<SentryStatus, EmbassyError>)
        ensures
            self.kind != MessageKind::SentryStatus ==> r is Err && r->Err_0
                == EmbassyError::InvalidKind(MessageKind::SentryStatus, self.kind),
            self.kind == MessageKind::SentryStatus ==> match decode_sentry_status(self.body@) {
                Some(v) => r is Ok && r->Ok_0@ == v,
                None => r is Err && r->Err_0 == EmbassyError::FailedParse(
                    MessageKind::SentryStatus,
                ),
            },
    {
        if self.kind != MessageKind::SentryStatus {
            return Err(EmbassyError::InvalidKind(MessageKind::SentryStatus, self.kind));
        }
        let s = string_chars(&self.body);
        let failed = Err(EmbassyError::FailedParse(MessageKind::SentryStatus));
        let (disk, p1) = match read_text_at(&s, 0) {
            Some(x) => x,
            None => return failed,
        };
        let (process, p2) = match read_text_at(&s, p1) {
            Some(x) => x,
            None => return failed,
        };
        let (data_path, p3) = match read_text_at(&s, p2) {
            Some(x) => x,
            None => return failed,
        };
        let (data_path_files, p4) = match read_int_at(&s, p3) {
            Some(x) => x,
            None => return failed,
        };
        let (data_written_gb_bits, p5) = match read_u64_at(&s, p4) {
            Some(x) => x,
            None => return failed,
        };
        let (disk_avail_gb_bits, p6) = match read_u64_at(&s, p5) {
            Some(x) => x,
            None => return failed,
        };
        let (disk_total_gb_bits, p7) = match read_u64_at(&s, p6) {
            Some(x) => x,
            None => return failed,
        };
        let (data_rate_mb_bits, p8) = match read_u64_at(&s, p7) {
            Some(x) => x,
            None => return failed,
        };
        if p8 != s.len() {
            return failed;
        }
        Ok(
            SentryStatus {
                disk,
                process,
                data_path,
                data_path_files,
                data_written_gb_bits,
                disk_avail_gb_bits,
                disk_total_gb_bits,
                data_rate_mb_bits,
            },
        )
    }

    /// The monitor operation that this message requests.
    pub fn to_sentry_operation(&self) -> (r: Result<SentryOperation, EmbassyError>)
        ensures
            self.kind != MessageKind::SentryOperation ==> r is Err && r->Err_0
                == EmbassyError::InvalidKind(MessageKind::SentryOperation, self.kind),
            self.kind == MessageKind::SentryOperation ==> match decode_sentry_operation(
                self.body@,
            ) {
                Some(v) => r is Ok && r->Ok_0@ == v,
                None => r is Err && r->Err_0 == EmbassyError::FailedParse(
                    MessageKind::SentryOperation,
                ),
            },
    {
        proof {
            reveal_strlit("Catalog");
            reveal_strlit("Backup");
        }
        if self.kind != MessageKind::SentryOperation {
            return Err(EmbassyError::InvalidKind(MessageKind::SentryOperation, self.kind));
        }
        let s = string_chars(&self.body);
        let failed = Err(EmbassyError::FailedParse(MessageKind::SentryOperation));
        let (name, p1) = match read_text_at(&s, 0) {
            Some(x) => x,
            None => return failed,
        };
        let (experiment, p2) = match read_text_at(&s, p1) {
            Some(x) => x,
            None => return failed,
        };
        let (run_number, p3) = match read_int_at(&s, p2) {
            Some(x) => x,
            None => return failed,
        };
        if p3 != s.len() {
            return failed;
        }
        let params = SentryParameters { experiment, run_number };
        if same_text(name.deref(), "Catalog") {
            Ok(SentryOperation::Catalog(params))
        } else if same_text(name.deref(), "Backup") {
            Ok(SentryOperation::Backup(params))
        } else {
            failed
        }
    }
}

} // verus!
