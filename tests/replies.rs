use attpc_envoy::ecc_envoy::ECCStatusResponse;
use attpc_envoy::ecc_response::{
    parse_operation_events, parse_status_events, reply_events, ResponseError, XmlEvent,
    REPLY_EVENTS,
};
use attpc_envoy::message::{EmbassyMessage, MessageKind};

fn events_of(text: &str) -> Vec<XmlEvent> {
    let events = reply_events(text);
    assert!(events.len() <= REPLY_EVENTS);
    events
}

const ENVELOPE: &str = "<?xml version=\"1.0\" encoding=\"UTF-8\"?>\n<SOAP-ENV:Envelope xmlns:SOAP-ENV=\"http://schemas.xmlsoap.org/soap/envelope/\"><SOAP-ENV:Body><ecc:Reply>";
const CLOSE: &str = "</ecc:Reply></SOAP-ENV:Body></SOAP-ENV:Envelope>";

#[test]
fn status_reply_without_message() {
    let text = format!(
        "{ENVELOPE}<ErrorCode>0</ErrorCode><ErrorMessage></ErrorMessage><State>4</State><Transition>0</Transition>{CLOSE}"
    );
    let status = parse_status_events(&events_of(&text)).unwrap();
    assert_eq!(status.error_code, 0);
    assert_eq!(status.error_message, "");
    assert_eq!(status.state, 4);
    assert_eq!(status.transition, 0);
}

#[test]
fn status_reply_with_message() {
    let text = format!(
        "{ENVELOPE}<ErrorCode>-2</ErrorCode><ErrorMessage>busy</ErrorMessage><State>6</State><Transition>3</Transition>{CLOSE}"
    );
    let status = parse_status_events(&events_of(&text)).unwrap();
    assert_eq!(status.error_code, -2);
    assert_eq!(status.error_message, "busy");
    assert_eq!(status.state, 6);
    assert_eq!(status.transition, 3);
}

#[test]
fn operation_reply_text() {
    let text = format!(
        "{ENVELOPE}<ErrorCode>0</ErrorCode><ErrorMessage></ErrorMessage><Text>configured</Text>{CLOSE}"
    );
    let response = parse_operation_events(&events_of(&text)).unwrap();
    assert_eq!(response.error_code, 0);
    assert_eq!(response.text, "configured");
    let empty = format!("{ENVELOPE}<ErrorCode>1</ErrorCode><ErrorMessage>no</ErrorMessage><Text></Text>{CLOSE}");
    let response = parse_operation_events(&events_of(&empty)).unwrap();
    assert_eq!(response.error_code, 1);
    assert_eq!(response.error_message, "no");
    assert_eq!(response.text, "");
}

#[test]
fn reply_errors() {
    let not_int = format!("{ENVELOPE}<ErrorCode>zero</ErrorCode>{CLOSE}");
    assert!(matches!(
        parse_status_events(&events_of(&not_int)),
        Err(ResponseError::InvalidStringToInt)
    ));
    let no_code = format!("{ENVELOPE}<ErrorCode></ErrorCode>{CLOSE}");
    assert!(matches!(
        parse_status_events(&events_of(&no_code)),
        Err(ResponseError::FailedXMLConvert)
    ));
    assert!(matches!(parse_status_events(&Vec::new()), Err(ResponseError::FailedXMLConvert)));
    let mut faulty: Vec<XmlEvent> = (0..6).map(|_| XmlEvent::Markup).collect();
    faulty[2] = XmlEvent::Fault;
    faulty.push(XmlEvent::Text(String::from("0")));
    assert!(matches!(parse_status_events(&faulty), Err(ResponseError::FailedXMLParse)));
    assert!(matches!(parse_operation_events(&faulty), Err(ResponseError::FailedXMLParse)));
}

fn code_of(text: &str) -> Result<i32, ResponseError> {
    let mut events: Vec<XmlEvent> = (0..6).map(|_| XmlEvent::Markup).collect();
    events.push(XmlEvent::Text(String::from(text)));
    parse_operation_events(&events).map(|r| r.error_code)
}

#[test]
fn integer_text_grammar() {
    assert_eq!(code_of("42"), Ok(42));
    assert_eq!(code_of("+7"), Ok(7));
    assert_eq!(code_of("-2147483648"), Ok(i32::MIN));
    assert_eq!(code_of("2147483648"), Err(ResponseError::InvalidStringToInt));
    assert_eq!(code_of(" 1"), Err(ResponseError::InvalidStringToInt));
    assert_eq!(code_of("-"), Err(ResponseError::InvalidStringToInt));
    assert_eq!(code_of(""), Err(ResponseError::InvalidStringToInt));
}

#[test]
fn failed_poll_reports_offline() {
    let message = EmbassyMessage::compose_polled_status(None, 4);
    assert_eq!(message.kind, MessageKind::ECCStatus);
    assert_eq!(message.id, 4);
    let status = message.to_ecc_status_response().unwrap();
    assert_eq!(status.state, 0);
    assert_eq!(status.error_code, 0);
    let polled = ECCStatusResponse { error_code: 0, error_message: String::new(), state: 5, transition: 1 };
    let status = EmbassyMessage::compose_polled_status(Some(polled), 4).to_ecc_status_response().unwrap();
    assert_eq!(status.state, 5);
    assert_eq!(status.transition, 1);
}

#[test]
fn reading_stops_at_the_end_of_the_text() {
    let events = reply_events("<a>1</a>");
    assert_eq!(events.len(), 4);
    assert!(matches!(events[3], XmlEvent::End));
    assert!(matches!(&events[1], XmlEvent::Text(t) if t == "1"));
}
