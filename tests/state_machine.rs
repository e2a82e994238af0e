use attpc_envoy::command::{may_start_run, CommandName, CommandStatus};
use attpc_envoy::ecc_operation::{ECCOperation, ECCStatus};
use attpc_envoy::error::ConversionError;
use attpc_envoy::frib_operation::{FribOperation, FribStatus};

const ALL_STATUSES: [ECCStatus; 9] = [
    ECCStatus::Offline,
    ECCStatus::Busy,
    ECCStatus::Idle,
    ECCStatus::Prepared,
    ECCStatus::Described,
    ECCStatus::Ready,
    ECCStatus::Running,
    ECCStatus::ErrorStat,
    ECCStatus::Inconsistent,
];

const ALL_OPERATIONS: [ECCOperation; 8] = [
    ECCOperation::Describe,
    ECCOperation::Prepare,
    ECCOperation::Configure,
    ECCOperation::Start,
    ECCOperation::Undo,
    ECCOperation::Breakup,
    ECCOperation::Stop,
    ECCOperation::Invalid,
];

#[test]
fn forward_operations_follow_the_table() {
    assert_eq!(ECCStatus::Idle.get_forward_operation(), ECCOperation::Describe);
    assert_eq!(ECCStatus::Described.get_forward_operation(), ECCOperation::Prepare);
    assert_eq!(ECCStatus::Prepared.get_forward_operation(), ECCOperation::Configure);
    assert_eq!(ECCStatus::Ready.get_forward_operation(), ECCOperation::Invalid);
    assert_eq!(ECCStatus::Offline.get_forward_operation(), ECCOperation::Invalid);
}

#[test]
fn backward_operations_follow_the_table() {
    assert_eq!(ECCStatus::Ready.get_backward_operation(), ECCOperation::Breakup);
    assert_eq!(ECCStatus::Prepared.get_backward_operation(), ECCOperation::Undo);
    assert_eq!(ECCStatus::Described.get_backward_operation(), ECCOperation::Undo);
    assert_eq!(ECCStatus::Idle.get_backward_operation(), ECCOperation::Invalid);
    assert_eq!(ECCStatus::Running.get_backward_operation(), ECCOperation::Invalid);
}

#[test]
fn capability_matches_operation_for_every_state() {
    for s in ALL_STATUSES {
        assert_eq!(s.can_go_forward(), s.get_forward_operation() != ECCOperation::Invalid);
        assert_eq!(s.can_go_backward(), s.get_backward_operation() != ECCOperation::Invalid);
    }
}

#[test]
fn status_names_round_trip() {
    for s in ALL_STATUSES {
        let back = ECCStatus::from_string(s.to_string()).expect("name of a state");
        assert_eq!(back, s);
    }
    assert_eq!(ECCStatus::ErrorStat.to_string(), "Error");
}

#[test]
fn operation_names_round_trip() {
    for op in ALL_OPERATIONS {
        let back = ECCOperation::from_string(op.to_string()).expect("name of an operation");
        assert_eq!(back, op);
    }
}

#[test]
fn status_codes_round_trip_but_inconsistent() {
    for s in ALL_STATUSES {
        if s != ECCStatus::Inconsistent {
            assert_eq!(ECCStatus::from_code(s.to_code()), s);
        }
    }
    assert_eq!(ECCStatus::from_code(ECCStatus::Inconsistent.to_code()), ECCStatus::ErrorStat);
    assert_eq!(ECCStatus::Described.to_code(), 2);
    assert_eq!(ECCStatus::Prepared.to_code(), 3);
    assert_eq!(ECCStatus::Ready.to_code(), 4);
    assert_eq!(ECCStatus::Running.to_code(), 5);
}

#[test]
fn unknown_codes_mean_error() {
    assert_eq!(ECCStatus::from_code(7), ECCStatus::ErrorStat);
    assert_eq!(ECCStatus::from_code(-5), ECCStatus::ErrorStat);
}

#[test]
fn unknown_names_are_refused() {
    match ECCStatus::from_string(String::from("ready")) {
        Err(ConversionError::BadString(s)) => assert_eq!(s, "ready"),
        Ok(_) => panic!("lower-case name accepted"),
    }
    assert!(ECCOperation::from_string(String::from("Launch")).is_err());
    assert!(ECCOperation::from_string(String::new()).is_err());
}

#[test]
fn frib_texts_round_trip() {
    for op in [FribOperation::Begin, FribOperation::End, FribOperation::Check] {
        assert_eq!(FribOperation::from_string(op.to_string()).unwrap(), op);
    }
    for s in [FribStatus::Okay, FribStatus::Errored, FribStatus::Failed] {
        assert_eq!(FribStatus::from_string(s.to_string()).unwrap(), s);
    }
    assert_eq!(FribOperation::Check.to_string(), "get state");
    assert_eq!(FribStatus::from_string(String::from("MAYBE")), Err(String::from("MAYBE")));
}

#[test]
fn run_check_outcome_decides_start() {
    assert!(!may_start_run(CommandStatus::Success));
    assert!(may_start_run(CommandStatus::Failure));
    assert!(may_start_run(CommandStatus::CouldNotExecute));
    assert_eq!(CommandName::CheckRunExists.to_string(), "CheckRunExists");
}
