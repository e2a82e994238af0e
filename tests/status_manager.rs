use attpc_envoy::ecc_envoy::{ECCOperationResponse, ECCStatusResponse};
use attpc_envoy::ecc_operation::ECCStatus;
use attpc_envoy::error::EmbassyError;
use attpc_envoy::message::{EmbassyMessage, MessageKind};
use attpc_envoy::sentry_types::{SentryServerStatus, SentryStatus};
use attpc_envoy::status_manager::StatusManager;

fn status_message(id: usize, state: ECCStatus) -> EmbassyMessage {
    let status = ECCStatusResponse {
        error_code: 0,
        error_message: String::new(),
        state: state.to_code(),
        transition: 0,
    };
    EmbassyMessage::compose_status(&status, id)
}

fn outcome_message(id: usize) -> EmbassyMessage {
    let response = ECCOperationResponse {
        error_code: 0,
        error_message: String::new(),
        text: String::from("done"),
    };
    EmbassyMessage::compose_op_response(&response, id)
}

fn all_in(manager: &mut StatusManager, state: ECCStatus) {
    let messages: Vec<EmbassyMessage> = (0..12).map(|id| status_message(id, state)).collect();
    manager.handle_messages(&messages).unwrap();
}

#[test]
fn new_manager_is_offline() {
    let manager = StatusManager::new();
    assert_eq!(manager.get_system_ecc_status(), ECCStatus::Offline);
    assert_eq!(manager.get_ecc_status_response().len(), 12);
    assert_eq!(manager.get_sentry_status_response().len(), 11);
    assert_eq!(manager.get_sentry_server_system_status(), SentryServerStatus::Offline);
    assert!(manager.has_sentry_cataloged());
}

#[test]
fn system_status_is_common_state_or_inconsistent() {
    let mut manager = StatusManager::new();
    all_in(&mut manager, ECCStatus::Ready);
    assert_eq!(manager.get_system_ecc_status(), ECCStatus::Ready);
    assert!(manager.is_system_ready());
    manager.handle_messages(&[status_message(5, ECCStatus::Running)]).unwrap();
    assert_eq!(manager.get_system_ecc_status(), ECCStatus::Inconsistent);
    assert!(!manager.is_system_ready());
}

#[test]
fn front_end_waits_for_master_to_prepare() {
    let mut manager = StatusManager::new();
    manager.handle_messages(&[status_message(3, ECCStatus::Described)]).unwrap();
    manager.handle_messages(&[status_message(11, ECCStatus::Idle)]).unwrap();
    assert!(!manager.can_ecc_go_forward(3));
    manager.handle_messages(&[status_message(11, ECCStatus::Prepared)]).unwrap();
    assert!(manager.can_ecc_go_forward(3));
    manager.handle_messages(&[status_message(11, ECCStatus::Ready)]).unwrap();
    assert!(manager.can_ecc_go_forward(3));
}

#[test]
fn master_waits_for_front_ends_to_be_ready() {
    let mut manager = StatusManager::new();
    all_in(&mut manager, ECCStatus::Prepared);
    assert!(!manager.can_ecc_go_forward(11));
    let ready: Vec<EmbassyMessage> = (0..11).map(|id| status_message(id, ECCStatus::Ready)).collect();
    manager.handle_messages(&ready).unwrap();
    assert!(manager.is_all_but_mutant_ready());
    assert!(manager.can_ecc_go_forward(11));
    assert!(!manager.can_ecc_go_forward(0));
}

#[test]
fn hold_suppresses_status_until_outcome() {
    let mut manager = StatusManager::new();
    all_in(&mut manager, ECCStatus::Idle);
    manager.set_ecc_busy(2);
    assert_eq!(manager.get_ecc_status(2), ECCStatus::Busy);
    manager.handle_messages(&[status_message(2, ECCStatus::Idle)]).unwrap();
    assert_eq!(manager.get_ecc_status(2), ECCStatus::Busy);
    manager.handle_messages(&[outcome_message(2)]).unwrap();
    assert_eq!(manager.get_ecc_status(2), ECCStatus::Busy);
    manager.handle_messages(&[status_message(2, ECCStatus::Described)]).unwrap();
    assert_eq!(manager.get_ecc_status(2), ECCStatus::Described);
}

#[test]
fn busy_beyond_master_changes_nothing() {
    let mut manager = StatusManager::new();
    manager.set_ecc_busy(12);
    assert_eq!(manager.get_system_ecc_status(), ECCStatus::Offline);
}

#[test]
fn bad_body_stops_the_batch() {
    let mut manager = StatusManager::new();
    let bad = EmbassyMessage { kind: MessageKind::ECCStatus, id: 1, body: String::from("x") };
    let batch = vec![status_message(0, ECCStatus::Ready), bad, status_message(2, ECCStatus::Ready)];
    assert!(matches!(
        manager.handle_messages(&batch),
        Err(EmbassyError::FailedParse(MessageKind::ECCStatus))
    ));
    assert_eq!(manager.get_ecc_status(0), ECCStatus::Ready);
    assert_eq!(manager.get_ecc_status(2), ECCStatus::Offline);
}

#[test]
fn out_of_range_ids_are_ignored() {
    let mut manager = StatusManager::new();
    manager.handle_messages(&[status_message(40, ECCStatus::Ready)]).unwrap();
    assert_eq!(manager.get_system_ecc_status(), ECCStatus::Offline);
}

#[test]
fn monitor_snapshots_are_recorded() {
    let mut manager = StatusManager::new();
    let mut snapshot = SentryStatus::default();
    snapshot.disk = String::from("/dev/sda");
    snapshot.data_path_files = 4;
    let message = EmbassyMessage::compose_sentry_status(&snapshot, 3);
    manager.handle_messages(&[message]).unwrap();
    assert_eq!(manager.get_sentry_server_status(3), SentryServerStatus::Online);
    assert_eq!(manager.get_sentry_server_system_status(), SentryServerStatus::Inconsistent);
    assert!(!manager.has_sentry_cataloged());
    assert_eq!(manager.get_sentry_status_response()[3].data_path_files, 4);
}

#[test]
fn reset_restores_defaults() {
    let mut manager = StatusManager::new();
    all_in(&mut manager, ECCStatus::Running);
    assert!(manager.is_system_running());
    assert!(manager.is_all_but_mutant_running());
    assert!(!manager.is_mutant_stopped());
    manager.set_ecc_busy(4);
    manager.reset();
    assert_eq!(manager.get_system_ecc_status(), ECCStatus::Offline);
    assert!(manager.is_mutant_stopped());
    manager.handle_messages(&[status_message(4, ECCStatus::Idle)]).unwrap();
    assert_eq!(manager.get_ecc_status(4), ECCStatus::Idle);
}
