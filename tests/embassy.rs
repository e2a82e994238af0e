use attpc_envoy::ecc_envoy::{ECCOperationResponse, ECCStatusResponse};
use attpc_envoy::ecc_operation::{ECCOperation, ECCStatus};
use attpc_envoy::command::CommandStatus;
use attpc_envoy::embassy::{absorb, Embassy, EnvoyLinks, PollStep, Received};
use attpc_envoy::error::EmbassyError;
use attpc_envoy::message::EmbassyMessage;
use attpc_envoy::status_manager::StatusManager;
use attpc_envoy::sentry_types::SentryOperation;
use attpc_envoy::transition::{
    backward_transition_all, catalog_run, forward_transition_all, poll_embassy,
    reconfigure_mutant_blocking, start_cobos_blocking, start_mutant, start_run_sequence,
    stop_cobos, stop_mutant_blocking, stop_run_sequence, transition_ecc,
};
use std::collections::HashMap;
use tokio::sync::{broadcast, mpsc};

struct Bench {
    embassy: Embassy,
    modules: Vec<mpsc::Receiver<EmbassyMessage>>,
    results: mpsc::Sender<EmbassyMessage>,
    monitors: broadcast::Receiver<EmbassyMessage>,
    _cancel: broadcast::Receiver<EmbassyMessage>,
}

fn bench() -> Bench {
    let mut embassy = Embassy::new().unwrap();
    let mut senders = HashMap::new();
    let mut modules = Vec::new();
    for id in 0..12usize {
        let (tx, rx) = mpsc::channel::<EmbassyMessage>(10);
        senders.insert(id, tx);
        modules.push(rx);
    }
    let (results, receiver) = mpsc::channel::<EmbassyMessage>(64);
    let (sentry_sender, monitors) = broadcast::channel::<EmbassyMessage>(10);
    let (cancel, cancel_rx) = broadcast::channel::<EmbassyMessage>(10);
    embassy.startup(EnvoyLinks {
        ecc_senders: senders,
        sentry_sender,
        receiver,
        cancel,
        handles: Vec::new(),
    });
    Bench { embassy, modules, results, monitors, _cancel: cancel_rx }
}

fn status_message(id: usize, state: ECCStatus) -> EmbassyMessage {
    let status = ECCStatusResponse {
        error_code: 0,
        error_message: String::new(),
        state: state.to_code(),
        transition: 0,
    };
    EmbassyMessage::compose_status(&status, id)
}

fn outcome_message(id: usize) -> EmbassyMessage {
    let response = ECCOperationResponse {
        error_code: 0,
        error_message: String::new(),
        text: String::new(),
    };
    EmbassyMessage::compose_op_response(&response, id)
}

fn set_all(manager: &mut StatusManager, state: ECCStatus) {
    let messages: Vec<EmbassyMessage> = (0..12).map(|id| status_message(id, state)).collect();
    manager.handle_messages(&messages).unwrap();
}

fn received(bench: &mut Bench, id: usize) -> Vec<ECCOperation> {
    let mut ops = Vec::new();
    while let Ok(message) = bench.modules[id].try_recv() {
        assert_eq!(message.id, id);
        ops.push(message.to_ecc_operation().unwrap());
    }
    ops
}

#[test]
fn poll_on_empty_channel_is_empty() {
    let mut bench = bench();
    assert!(bench.embassy.is_connected());
    let batch = bench.embassy.poll_messages().unwrap();
    assert!(batch.is_empty());
}

#[test]
fn poll_returns_results_in_arrival_order() {
    let mut bench = bench();
    bench.results.blocking_send(status_message(4, ECCStatus::Idle)).unwrap();
    bench.results.blocking_send(status_message(1, ECCStatus::Ready)).unwrap();
    let batch = bench.embassy.poll_messages().unwrap();
    assert_eq!(batch.len(), 2);
    assert_eq!(batch[0].id, 4);
    assert_eq!(batch[1].id, 1);
}

#[test]
fn poll_after_shutdown_is_empty() {
    let mut bench = bench();
    bench.embassy.shutdown().unwrap();
    assert!(!bench.embassy.is_connected());
    assert_eq!(bench.embassy.number_of_tasks(), 0);
    drop(bench.results);
    assert!(bench.embassy.poll_messages().unwrap().is_empty());
    assert!(bench.embassy.poll_messages().unwrap().is_empty());
}

#[test]
fn disconnected_results_channel_is_an_error() {
    let Bench { mut embassy, results, .. } = bench();
    drop(results);
    assert!(matches!(embassy.poll_messages(), Err(EmbassyError::FailedRecieve)));
}

#[test]
fn submit_to_unknown_module_delivers_nothing() {
    let mut bench = bench();
    let message = EmbassyMessage::compose_operation(ECCOperation::Start, 99);
    assert!(bench.embassy.submit_message(message).is_ok());
    for id in 0..12 {
        assert!(received(&mut bench, id).is_empty());
    }
}

#[test]
fn submit_routes_to_its_module() {
    let mut bench = bench();
    let message = EmbassyMessage::compose_operation(ECCOperation::Stop, 6);
    bench.embassy.submit_message(message).unwrap();
    assert_eq!(received(&mut bench, 6), vec![ECCOperation::Stop]);
    assert!(received(&mut bench, 5).is_empty());
    let status = status_message(6, ECCStatus::Ready);
    bench.embassy.submit_message(status).unwrap();
    assert!(received(&mut bench, 6).is_empty());
}

#[test]
fn describe_goes_to_every_module() {
    let mut bench = bench();
    let mut manager = StatusManager::new();
    set_all(&mut manager, ECCStatus::Idle);
    forward_transition_all(&mut bench.embassy, &mut manager, 5).unwrap();
    for id in 0..12 {
        assert_eq!(received(&mut bench, id), vec![ECCOperation::Describe]);
        assert_eq!(manager.get_ecc_status(id), ECCStatus::Busy);
    }
}

#[test]
fn prepare_goes_to_master_before_front_ends() {
    let mut bench = bench();
    let mut manager = StatusManager::new();
    set_all(&mut manager, ECCStatus::Described);
    bench.results.blocking_send(outcome_message(11)).unwrap();
    bench.results.blocking_send(status_message(11, ECCStatus::Prepared)).unwrap();
    forward_transition_all(&mut bench.embassy, &mut manager, 5).unwrap();
    assert_eq!(received(&mut bench, 11), vec![ECCOperation::Prepare]);
    for id in 0..11 {
        assert_eq!(received(&mut bench, id), vec![ECCOperation::Prepare]);
    }
}

#[test]
fn prepare_holds_front_ends_while_master_is_not_prepared() {
    let mut bench = bench();
    let mut manager = StatusManager::new();
    set_all(&mut manager, ECCStatus::Described);
    let result = forward_transition_all(&mut bench.embassy, &mut manager, 3);
    assert!(matches!(result, Err(EmbassyError::Timeout)));
    assert_eq!(received(&mut bench, 11), vec![ECCOperation::Prepare]);
    for id in 0..11 {
        assert!(received(&mut bench, id).is_empty());
    }
}

#[test]
fn configure_goes_to_front_ends_before_master() {
    let mut bench = bench();
    let mut manager = StatusManager::new();
    set_all(&mut manager, ECCStatus::Prepared);
    for id in 0..11 {
        bench.results.blocking_send(outcome_message(id)).unwrap();
        bench.results.blocking_send(status_message(id, ECCStatus::Ready)).unwrap();
    }
    forward_transition_all(&mut bench.embassy, &mut manager, 5).unwrap();
    for id in 0..11 {
        assert_eq!(received(&mut bench, id), vec![ECCOperation::Configure]);
    }
    assert_eq!(received(&mut bench, 11), vec![ECCOperation::Configure]);
}

#[test]
fn forward_from_ready_is_invalid() {
    let mut bench = bench();
    let mut manager = StatusManager::new();
    set_all(&mut manager, ECCStatus::Ready);
    let result = forward_transition_all(&mut bench.embassy, &mut manager, 5);
    assert!(matches!(result, Err(EmbassyError::InvalidTransition(ECCOperation::Invalid))));
    for id in 0..12 {
        assert!(received(&mut bench, id).is_empty());
    }
}

#[test]
fn backward_regresses_every_module() {
    let mut bench = bench();
    let mut manager = StatusManager::new();
    set_all(&mut manager, ECCStatus::Ready);
    backward_transition_all(&mut bench.embassy, &mut manager);
    for id in 0..12 {
        assert_eq!(received(&mut bench, id), vec![ECCOperation::Breakup]);
    }
}

#[test]
fn transition_skips_modules_without_operation() {
    let mut bench = bench();
    let mut manager = StatusManager::new();
    transition_ecc(&mut bench.embassy, &mut manager, vec![0, 1], true);
    assert!(received(&mut bench, 0).is_empty());
    assert_eq!(manager.get_ecc_status(0), ECCStatus::Offline);
}

#[test]
fn start_and_stop_reach_their_modules() {
    let mut bench = bench();
    start_mutant(&mut bench.embassy).unwrap();
    assert_eq!(received(&mut bench, 11), vec![ECCOperation::Start]);
    stop_cobos(&mut bench.embassy).unwrap();
    for id in 0..11 {
        assert_eq!(received(&mut bench, id), vec![ECCOperation::Stop]);
    }
    assert!(received(&mut bench, 11).is_empty());
}

#[test]
fn poll_feeds_the_manager() {
    let mut bench = bench();
    let mut manager = StatusManager::new();
    bench.results.blocking_send(status_message(0, ECCStatus::Idle)).unwrap();
    poll_embassy(&mut bench.embassy, &mut manager).unwrap();
    assert_eq!(manager.get_ecc_status(0), ECCStatus::Idle);
}

#[test]
fn catalog_reaches_the_monitors() {
    let mut bench = bench();
    let mut manager = StatusManager::new();
    catalog_run(&mut bench.embassy, &mut manager, "e20009", 17, 3).unwrap();
    let message = bench.monitors.try_recv().unwrap();
    match message.to_sentry_operation().unwrap() {
        SentryOperation::Catalog(p) => {
            assert_eq!(p.experiment, "e20009");
            assert_eq!(p.run_number, 17);
        }
        SentryOperation::Backup(_) => panic!("backup sent for a catalog"),
    }
}

#[test]
fn master_stops_before_the_wait_ends() {
    let mut bench = bench();
    let mut manager = StatusManager::new();
    set_all(&mut manager, ECCStatus::Running);
    bench.results.blocking_send(status_message(11, ECCStatus::Ready)).unwrap();
    stop_mutant_blocking(&mut bench.embassy, &mut manager, 3).unwrap();
    assert_eq!(received(&mut bench, 11), vec![ECCOperation::Stop]);
    assert!(manager.is_mutant_stopped());
}

#[test]
fn front_ends_start_and_are_awaited() {
    let mut bench = bench();
    let mut manager = StatusManager::new();
    set_all(&mut manager, ECCStatus::Ready);
    for id in 0..11 {
        bench.results.blocking_send(status_message(id, ECCStatus::Running)).unwrap();
    }
    start_cobos_blocking(&mut bench.embassy, &mut manager, 3).unwrap();
    for id in 0..11 {
        assert_eq!(received(&mut bench, id), vec![ECCOperation::Start]);
    }
    assert!(received(&mut bench, 11).is_empty());
    assert!(manager.is_all_but_mutant_running());
}

#[test]
fn reconfigure_times_out_without_replies() {
    let mut bench = bench();
    let mut manager = StatusManager::new();
    set_all(&mut manager, ECCStatus::Ready);
    let result = reconfigure_mutant_blocking(&mut bench.embassy, &mut manager, 2);
    assert!(matches!(result, Err(EmbassyError::Timeout)));
    assert_eq!(received(&mut bench, 11), vec![ECCOperation::Breakup]);
    assert_eq!(manager.get_ecc_status(11), ECCStatus::Busy);
}

#[test]
fn refused_run_check_sends_nothing() {
    let mut bench = bench();
    let mut manager = StatusManager::new();
    set_all(&mut manager, ECCStatus::Ready);
    let result = start_run_sequence(&mut bench.embassy, &mut manager, CommandStatus::Success, 3);
    assert!(matches!(result, Err(EmbassyError::RunNumberInUse)));
    for id in 0..12 {
        assert!(received(&mut bench, id).is_empty());
    }
    assert_eq!(manager.get_ecc_status(11), ECCStatus::Ready);
}

#[test]
fn master_is_not_started_when_front_ends_do_not_run() {
    let mut bench = bench();
    let mut manager = StatusManager::new();
    set_all(&mut manager, ECCStatus::Ready);
    bench.results.blocking_send(outcome_message(11)).unwrap();
    bench.results.blocking_send(status_message(11, ECCStatus::Prepared)).unwrap();
    let result = start_run_sequence(&mut bench.embassy, &mut manager, CommandStatus::Failure, 2);
    assert!(matches!(result, Err(EmbassyError::Timeout)));
    assert_eq!(received(&mut bench, 11), vec![ECCOperation::Breakup, ECCOperation::Configure]);
    for id in 0..11 {
        assert!(received(&mut bench, id).is_empty());
    }
}

#[test]
fn front_ends_are_not_stopped_while_master_runs() {
    let mut bench = bench();
    let mut manager = StatusManager::new();
    set_all(&mut manager, ECCStatus::Running);
    let result = stop_run_sequence(&mut bench.embassy, &mut manager, 2);
    assert!(matches!(result, Err(EmbassyError::Timeout)));
    assert_eq!(received(&mut bench, 11), vec![ECCOperation::Stop]);
    for id in 0..11 {
        assert!(received(&mut bench, id).is_empty());
    }
}

#[test]
fn run_stop_reaches_front_ends_after_master() {
    let mut bench = bench();
    let mut manager = StatusManager::new();
    set_all(&mut manager, ECCStatus::Running);
    bench.results.blocking_send(status_message(11, ECCStatus::Ready)).unwrap();
    stop_run_sequence(&mut bench.embassy, &mut manager, 3).unwrap();
    assert_eq!(received(&mut bench, 11), vec![ECCOperation::Stop]);
    for id in 0..11 {
        assert_eq!(received(&mut bench, id), vec![ECCOperation::Stop]);
    }
}

#[test]
fn poll_steps_follow_each_outcome() {
    let mut batch = Vec::new();
    let step = absorb(&mut batch, Received::Message(status_message(2, ECCStatus::Idle)));
    assert!(matches!(step, PollStep::Continue));
    assert_eq!(batch.len(), 1);
    assert!(matches!(absorb(&mut batch, Received::Empty), PollStep::Done));
    assert!(matches!(absorb(&mut batch, Received::Disconnected), PollStep::Failed));
    assert_eq!(batch.len(), 1);
}

#[test]
fn lost_bus_is_reported_by_poll() {
    let Bench { mut embassy, results, .. } = bench();
    drop(results);
    let mut manager = StatusManager::new();
    assert!(matches!(poll_embassy(&mut embassy, &mut manager), Err(EmbassyError::FailedRecieve)));
}

#[test]
fn shutdown_without_tasks_succeeds() {
    let mut embassy = Embassy::new().unwrap();
    assert!(embassy.shutdown().is_ok());
    assert!(!embassy.is_connected());
}

#[test]
fn invalid_forward_on_disconnected_bus() {
    let mut embassy = Embassy::new().unwrap();
    let mut manager = StatusManager::new();
    let result = forward_transition_all(&mut embassy, &mut manager, 3);
    assert!(matches!(result, Err(EmbassyError::InvalidTransition(ECCOperation::Invalid))));
}

#[test]
fn valid_forward_on_disconnected_bus_sends_nothing() {
    let mut embassy = Embassy::new().unwrap();
    let mut manager = StatusManager::new();
    set_all(&mut manager, ECCStatus::Idle);
    let result = forward_transition_all(&mut embassy, &mut manager, 3);
    assert!(matches!(result, Err(EmbassyError::Disconnected)));
    assert_eq!(manager.get_ecc_status(0), ECCStatus::Idle);
}

#[test]
fn allowed_run_on_disconnected_bus_is_refused() {
    let mut embassy = Embassy::new().unwrap();
    let mut manager = StatusManager::new();
    set_all(&mut manager, ECCStatus::Ready);
    let result = start_run_sequence(&mut embassy, &mut manager, CommandStatus::CouldNotExecute, 3);
    assert!(matches!(result, Err(EmbassyError::Disconnected)));
    let refused = start_run_sequence(&mut embassy, &mut manager, CommandStatus::Success, 3);
    assert!(matches!(refused, Err(EmbassyError::RunNumberInUse)));
}

#[test]
fn shutdown_leaves_the_bus_disconnected() {
    let mut bench = bench();
    assert!(bench.embassy.shutdown().is_ok());
    assert!(!bench.embassy.is_connected());
    let message = EmbassyMessage::compose_operation(ECCOperation::Start, 1);
    assert!(bench.embassy.submit_message(message).is_ok());
    assert!(received(&mut bench, 1).is_empty());
}
