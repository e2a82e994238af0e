use attpc_envoy::ecc_envoy::{
    compose_operation_request, compose_status_request, ECCConfig, ECCOperationResponse,
    ECCStatusResponse,
};
use attpc_envoy::ecc_operation::ECCOperation;
use attpc_envoy::error::EmbassyError;
use attpc_envoy::message::{EmbassyMessage, MessageKind};
use attpc_envoy::sentry_envoy::SentryConfig;
use attpc_envoy::sentry_types::{
    SentryOperation, SentryParameters, SentryServerStatus, SentryStatus,
};
use attpc_envoy::surveyor_envoy::SurveyorConfig;

#[test]
fn status_body_round_trips() {
    let status = ECCStatusResponse {
        error_code: -3,
        error_message: String::from("bad \u{e9}tat, line 2"),
        state: 4,
        transition: 0,
    };
    let message = EmbassyMessage::compose_status(&status, 7);
    assert_eq!(message.kind, MessageKind::ECCStatus);
    assert_eq!(message.id, 7);
    let back = message.to_ecc_status_response().unwrap();
    assert_eq!(back.error_code, -3);
    assert_eq!(back.error_message, "bad \u{e9}tat, line 2");
    assert_eq!(back.state, 4);
    assert_eq!(back.transition, 0);
}

#[test]
fn status_body_is_hexadecimal_fields() {
    let status = ECCStatusResponse {
        error_code: 1,
        error_message: String::from("ab"),
        state: -1,
        transition: 26,
    };
    let message = EmbassyMessage::compose_status(&status, 0);
    assert_eq!(message.body, "0000000100000002abffffffff0000001a");
}

#[test]
fn op_response_body_round_trips() {
    let response = ECCOperationResponse {
        error_code: 0,
        error_message: String::new(),
        text: String::from("Configured"),
    };
    let message = EmbassyMessage::compose_op_response(&response, 11);
    let back = message.to_ecc_operation_response().unwrap();
    assert_eq!(back.error_code, 0);
    assert_eq!(back.error_message, "");
    assert_eq!(back.text, "Configured");
}

#[test]
fn operation_body_round_trips() {
    let message = EmbassyMessage::compose_operation(ECCOperation::Configure, 4);
    assert_eq!(message.kind, MessageKind::ECCOperation);
    assert_eq!(message.to_ecc_operation().unwrap(), ECCOperation::Configure);
}

#[test]
fn sentry_bodies_round_trip() {
    let status = SentryStatus {
        disk: String::from("/dev/sda1"),
        process: String::from("running"),
        data_path: String::from("/data"),
        data_path_files: 12,
        data_written_gb_bits: 2.5f64.to_bits(),
        disk_avail_gb_bits: 100.0f64.to_bits(),
        disk_total_gb_bits: 500.0f64.to_bits(),
        data_rate_mb_bits: 0.25f64.to_bits(),
    };
    let back = EmbassyMessage::compose_sentry_status(&status, 3).to_sentry_status().unwrap();
    assert_eq!(back.disk, "/dev/sda1");
    assert_eq!(back.data_path_files, 12);
    assert_eq!(f64::from_bits(back.data_written_gb_bits), 2.5);
    assert_eq!(f64::from_bits(back.data_rate_mb_bits), 0.25);

    let op = SentryOperation::Backup(SentryParameters {
        experiment: String::from("e20009"),
        run_number: -4,
    });
    match EmbassyMessage::compose_sentry_operation(&op, 0).to_sentry_operation().unwrap() {
        SentryOperation::Backup(p) => {
            assert_eq!(p.experiment, "e20009");
            assert_eq!(p.run_number, -4);
        }
        SentryOperation::Catalog(_) => panic!("catalog read back from a backup"),
    }
}

#[test]
fn wrong_kind_is_refused() {
    let message = EmbassyMessage::compose_operation(ECCOperation::Start, 1);
    match message.to_ecc_status_response() {
        Err(EmbassyError::InvalidKind(expected, got)) => {
            assert_eq!(expected, MessageKind::ECCStatus);
            assert_eq!(got, MessageKind::ECCOperation);
        }
        _ => panic!("an operation read as a status"),
    }
}

#[test]
fn malformed_body_is_refused() {
    let message = EmbassyMessage {
        kind: MessageKind::ECCStatus,
        id: 0,
        body: String::from("0000000g"),
    };
    assert!(matches!(
        message.to_ecc_status_response(),
        Err(EmbassyError::FailedParse(MessageKind::ECCStatus))
    ));
    let cancel = EmbassyMessage::compose_cancel();
    assert_eq!(cancel.kind, MessageKind::Cancel);
    assert_eq!(cancel.body, "Cancel");
    assert!(matches!(
        cancel.to_ecc_operation(),
        Err(EmbassyError::InvalidKind(MessageKind::ECCOperation, MessageKind::Cancel))
    ));
}

#[test]
fn front_end_configuration_names() {
    let config = ECCConfig::new(3, "e20009");
    assert_eq!(config.address(), "192.168.41.63");
    assert_eq!(config.endpoint(), "http://192.168.41.63:8083");
    assert_eq!(config.describe(), "cobo3");
    assert_eq!(config.source(), "CoBo[3]");
    assert_eq!(config.data_router(), "data3");
    assert_eq!(config.data_exporter(), "exporter3");
}

#[test]
fn master_configuration_names() {
    let config = ECCConfig::new(11, "e20009");
    assert_eq!(config.address(), "192.168.41.1");
    assert_eq!(config.endpoint(), "http://192.168.41.1:8083");
    assert_eq!(config.describe(), "e20009");
    assert_eq!(config.source(), "Mutant[master]");
    let body = config.compose_config_body();
    assert!(body.starts_with("<configID>"));
    assert!(body.contains("<SubConfigId type=\"describe\">\n                                e20009\n"));
    let link = config.compose_data_link_body();
    assert!(link.contains(
        "<DataRouter ipAddress=\"192.168.41.1\" name=\"data11\" port=\"46005\" type=\"TCP\" />"
    ));
    assert!(link.contains("name=\"exporter11\" port=\"46007\""));
}

#[test]
fn operation_request_wraps_configuration() {
    let config = ECCConfig::new(0, "exp");
    let message = EmbassyMessage::compose_operation(ECCOperation::Describe, 0);
    let request = compose_operation_request(&config, &message).unwrap();
    let expected_head = String::from(attpc_envoy::ecc_envoy::ECC_SOAP_HEADER) + "<Describe>\n";
    assert!(request.starts_with(&expected_head));
    assert!(request.ends_with(&(String::from("</Describe>\n") + attpc_envoy::ecc_envoy::ECC_SOAP_FOOTER)));
    assert!(request.contains("cobo0"));
    let status = compose_status_request();
    assert!(status.contains("<GetState>\n</GetState>\n"));
    let wrong = EmbassyMessage::compose_cancel();
    assert!(compose_operation_request(&config, &wrong).is_err());
}

#[test]
fn monitor_addresses() {
    let sentry = SentryConfig::new(2);
    assert_eq!(sentry.status(), "http://192.168.41.62:8080/status");
    assert_eq!(sentry.catalog(), "http://192.168.41.62:8080/catalog");
    assert_eq!(sentry.backup(), "http://192.168.41.62:8080/backup");
    let surveyor = SurveyorConfig::new(0);
    assert_eq!(surveyor.location(), "192.168.41.60");
    assert_eq!(surveyor.page(), "http://192.168.41.60:8081/~attpc/surveyor.html");
}

#[test]
fn default_monitor_is_offline() {
    let status = SentryStatus::default();
    assert_eq!(SentryServerStatus::from_status(&status), SentryServerStatus::Offline);
    assert_eq!(SentryServerStatus::Offline.to_string(), "Offline");
    let mut online = SentryStatus::default();
    online.disk = String::from("/dev/sdb");
    assert_eq!(SentryServerStatus::from_status(&online), SentryServerStatus::Online);
}
