//! What a monitor envoy reports and what it can be asked to do.
use crate::message::{MessageKind, ToMessage};
use crate::text::same_text;
use std::ops::Deref;
use vstd::prelude::*;
use vstd::string::*;

verus! {

/// The run that a monitor operation concerns.
#[derive(Debug)]
pub struct SentryParameters {
    pub experiment: String,
    pub run_number: i32,
}

/// An operation on the disk monitor of a front-end.
#[derive(Debug)]
pub enum SentryOperation {
    Catalog(SentryParameters),
    Backup(SentryParameters),
}

/// The value of a monitor operation.
pub struct SentryOperationRecord {
    pub is_catalog: bool,
    pub experiment: Seq<char>,
    pub run_number: i32,
}

impl View for SentryOperation {
    type V = SentryOperationRecord;

    open spec fn view(&self) -> SentryOperationRecord {
        match self {
            SentryOperation::Catalog(p) => SentryOperationRecord {
                is_catalog: true,
                experiment: p.experiment@,
                run_number: p.run_number,
            },
            SentryOperation::Backup(p) => SentryOperationRecord {
                is_catalog: false,
                experiment: p.experiment@,
                run_number: p.run_number,
            },
        }
    }
}

impl ToMessage for SentryOperation {
    open spec fn spec_kind(&self) -> MessageKind {
        MessageKind::SentryOperation
    }

    fn message_kind(&self) -> (k: MessageKind) {
        MessageKind::SentryOperation
    }
}

/// The last known snapshot of the disk monitor of a front-end. The four readings are
/// carried as the bit patterns of 64-bit floating-point numbers: the library passes them on
/// and never reads them.
#[derive(Debug)]
pub struct SentryStatus {
    pub disk: String,
    pub process: String,
    pub data_path: String,
    pub data_path_files: i32,
    pub data_written_gb_bits: u64,
    pub disk_avail_gb_bits: u64,
    pub disk_total_gb_bits: u64,
    pub data_rate_mb_bits: u64,
}

/// The value of a monitor snapshot.
pub struct SentryRecord {
    pub disk: Seq<char>,
    pub process: Seq<char>,
    pub data_path: Seq<char>,
    pub data_path_files: i32,
    pub data_written_gb_bits: u64,
    pub disk_avail_gb_bits: u64,
    pub disk_total_gb_bits: u64,
    pub data_rate_mb_bits: u64,
}

impl View for SentryStatus {
    type V = SentryRecord;

    open spec fn view(&self) -> SentryRecord {
        SentryRecord {
            disk: self.disk@,
            process: self.process@,
            data_path: self.data_path@,
            data_path_files: self.data_path_files,
            data_written_gb_bits: self.data_written_gb_bits,
            disk_avail_gb_bits: self.disk_avail_gb_bits,
            disk_total_gb_bits: self.disk_total_gb_bits,
            data_rate_mb_bits: self.data_rate_mb_bits,
        }
    }
}

/// The snapshot of a monitor that has not reported: every text "N/A", every number zero.
pub open spec fn default_sentry() -> SentryRecord {
    SentryRecord {
        disk: "N/A"@,
        process: "N/A"@,
        data_path: "N/A"@,
        data_path_files: 0,
        data_written_gb_bits: 0,
        disk_avail_gb_bits: 0,
        disk_total_gb_bits: 0,
        data_rate_mb_bits: 0,
    }
}

impl Default for SentryStatus {
    fn default() -> (r: Self)
        ensures
            r@ == default_sentry(),
    {
        SentryStatus {
            disk: String::from_str("N/A"),
            process: String::from_str("N/A"),
            data_path: String::from_str("N/A"),
            data_path_files: 0,
            data_written_gb_bits: 0,
            disk_avail_gb_bits: 0,
            disk_total_gb_bits: 0,
            data_rate_mb_bits: 0,
        }
    }
}

impl ToMessage for SentryStatus {
    open spec fn spec_kind(&self) -> MessageKind {
        MessageKind::SentryStatus
    }

    fn message_kind(&self) -> (k: MessageKind) {
        MessageKind::SentryStatus
    }
}

/// Whether a monitor is reachable, or whether the monitors disagree.
#[derive(Debug, PartialEq, Eq, Clone, Copy, Structural)]
pub enum SentryServerStatus {
    Online,
    Offline,
    Inconsistent,
}

/// A monitor that has reported a disk is online.
pub open spec fn sentry_server_of(r: SentryRecord) -> SentryServerStatus {
    if r.disk != "N/A"@ {
        SentryServerStatus::Online
    } else {
        SentryServerStatus::Offline
    }
}

/// Canonical name of a monitor status.
pub open spec fn sentry_server_name(s: SentryServerStatus) -> Seq<char> {
    match s {
        SentryServerStatus::Online => "Online"@,
        SentryServerStatus::Offline => "Offline"@,
        SentryServerStatus::Inconsistent => "Inconsistent"@,
    }
}

impl SentryServerStatus {
    /// Whether the monitor whose snapshot this is can be reached.
    pub fn from_status(value: &SentryStatus) -> (r: SentryServerStatus)
        ensures
            r == sentry_server_of(value@),
    {
        if same_text(value.disk.deref(), "N/A") {
            SentryServerStatus::Offline
        } else {
            SentryServerStatus::Online
        }
    }

    /// Canonical name of this status.
    pub fn to_string(&self) -> (r: String)
        ensures
            r@ == sentry_server_name(*self),
    {
        match self {
            SentryServerStatus::Online => String::from_str("Online"),
            SentryServerStatus::Offline => String::from_str("Offline"),
            SentryServerStatus::Inconsistent => String::from_str("Inconsistent"),
        }
    }
}

} // verus!
