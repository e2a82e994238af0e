//! The replies of a control module to a state query and to an operation, read from the events
//! of their XML text. The reply is positional: after the envelope come the error code, an
//! error message that may be empty, then the payload.
use crate::ecc_envoy::{ECCOperationResponse, ECCStatusResponse, OperationResponseRecord, StatusRecord};
use crate::text::{parse_i32, parse_int};
use quick_xml::events::Event;
use quick_xml::Reader;
use std::ops::Deref;
use vstd::prelude::*;

verus! {

/// One event of an XML text, as far as a reply is concerned.
#[derive(Debug)]
pub enum XmlEvent {
    /// Character data between tags.
    Text(String),
    /// Any tag, declaration or other markup.
    Markup,
    /// The reader could not read the next event.
    Fault,
    /// The end of the text.
    End,
}

/// The value of an XML event.
pub enum XmlEventView {
    Text(Seq<char>),
    Markup,
    Fault,
    End,
}

impl View for XmlEvent {
    type V = XmlEventView;

    open spec fn view(&self) -> XmlEventView {
        match self {
            XmlEvent::Text(t) => XmlEventView::Text(t@),
            XmlEvent::Markup => XmlEventView::Markup,
            XmlEvent::Fault => XmlEventView::Fault,
            XmlEvent::End => XmlEventView::End,
        }
    }
}

/// Why a reply could not be read.
#[derive(Debug, PartialEq, Eq, Clone, Copy, Structural)]
pub enum ResponseError {
    /// The XML reader failed on an event the reply needs.
    FailedXMLParse,
    /// An event that must hold a value is not character data.
    FailedXMLConvert,
    /// A value that must be an integer is not one.
    InvalidStringToInt,
}

/// Event `k`; past the events read, the text has ended.
pub open spec fn event_at(es: Seq<XmlEventView>, k: int) -> XmlEventView {
    if 0 <= k < es.len() {
        es[k]
    } else {
        XmlEventView::End
    }
}

/// Whether the events `a..b` were all read without a fault.
pub open spec fn read_ok(es: Seq<XmlEventView>, a: int, b: int) -> bool {
    forall|k: int| a <= k < b ==> !(#[trigger] event_at(es, k) is Fault)
}

/// The integer that event `k` holds, or why it holds none.
pub open spec fn int_at(es: Seq<XmlEventView>, k: int) -> Result<i32, ResponseError> {
    match event_at(es, k) {
        XmlEventView::Text(t) => match parse_int(t) {
            Some(v) => Ok(v),
            None => Err(ResponseError::InvalidStringToInt),
        },
        _ => Err(ResponseError::FailedXMLConvert),
    }
}

/// Whether the reply holds an error message (event 9 is character data).
pub open spec fn has_message(es: Seq<XmlEventView>) -> bool {
    event_at(es, 9) is Text
}

/// The error message of the reply, empty when there is none.
pub open spec fn message_of(es: Seq<XmlEventView>) -> Seq<char> {
    match event_at(es, 9) {
        XmlEventView::Text(t) => t,
        _ => Seq::empty(),
    }
}

/// Where the payload of the reply starts: after the end tag of the error message, if any.
pub open spec fn payload_start(es: Seq<XmlEventView>) -> int {
    if has_message(es) {
        11
    } else {
        10
    }
}

/// The header of a reply: its error code and error message. Events 0 to 5 are the envelope and
/// the start tag of the code, 6 the code, 7 and 8 its end tag and the start tag of the
/// message, 9 the message or its end tag, 10 the end tag of a message that was there.
pub open spec fn reply_header(es: Seq<XmlEventView>) -> Result<(i32, Seq<char>), ResponseError> {
    if !read_ok(es, 0, 7) {
        Err(ResponseError::FailedXMLParse)
    } else {
        match int_at(es, 6) {
            Err(e) => Err(e),
            Ok(code) => if !read_ok(es, 7, payload_start(es)) {
                Err(ResponseError::FailedXMLParse)
            } else {
                Ok((code, message_of(es)))
            },
        }
    }
}

/// The status that a reply to a state query holds: after the header, the start tag of the
/// state, the state, its end tag, the start tag of the transition, the transition.
pub open spec fn status_reply(es: Seq<XmlEventView>) -> Result<StatusRecord, ResponseError> {
    let p = payload_start(es);
    match reply_header(es) {
        Err(e) => Err(e),
        Ok((code, msg)) => if !read_ok(es, p, p + 2) {
            Err(ResponseError::FailedXMLParse)
        } else {
            match int_at(es, p + 1) {
                Err(e) => Err(e),
                Ok(state) => if !read_ok(es, p + 2, p + 5) {
                    Err(ResponseError::FailedXMLParse)
                } else {
                    match int_at(es, p + 4) {
                        Err(e) => Err(e),
                        Ok(transition) => Ok(
                            StatusRecord { error_code: code, error_message: msg, state, transition },
                        ),
                    }
                },
            }
        },
    }
}

/// The outcome that a reply to an operation holds: after the header, the start tag of the
/// text, then the text, empty when that event is not character data.
pub open spec fn operation_reply(es: Seq<XmlEventView>) -> Result<
    OperationResponseRecord,
    ResponseError,
> {
    let p = payload_start(es);
    match reply_header(es) {
        Err(e) => Err(e),
        Ok((code, msg)) => if !read_ok(es, p, p + 2) {
            Err(ResponseError::FailedXMLParse)
        } else {
            Ok(
                OperationResponseRecord {
                    error_code: code,
                    error_message: msg,
                    text: match event_at(es, p + 1) {
                        XmlEventView::Text(t) => t,
                        _ => Seq::empty(),
                    },
                },
            )
        },
    }
}

/// How many events a reply needs at most: the reader may stop after these.
pub const REPLY_EVENTS: usize = 16;

/// quick-xml's pull reader, carried opaquely.
#[verifier::external_type_specification]
#[verifier::external_body]
#[verifier::reject_recursive_types(R)]
pub struct ExXmlReader<R>(Reader<R>);

/// Relies on `quick_xml::Reader::from_str`: a reader at the start of the text.
#[verifier::external_body]
fn open_reader<'a>(text: &'a str) -> Reader<&'a [u8]> {
    Reader::from_str(text)
}

/// Relies on `quick_xml::Reader::read_event`: the next event of the text. Character data
/// becomes its text, the end of the text `End`, a read error `Fault`, any other event `Markup`.
#[verifier::external_body]
fn next_event<'a>(reader: &mut Reader<&'a [u8]>) -> XmlEvent {
    match reader.read_event() {
        Ok(Event::Text(t)) => XmlEvent::Text(t.to_string()),
        Ok(Event::Eof) => XmlEvent::End,
        Ok(_) => XmlEvent::Markup,
        Err(_) => XmlEvent::Fault,
    }
}

/// The first events of a reply text, as many as reading a reply may need. Reading stops at
/// the end of the text or at its first fault, which is then the last event.
pub fn reply_events(text: &str) -> (r: Vec<XmlEvent>)
    ensures
        r@.len() <= REPLY_EVENTS,
        forall|i: int|
            0 <= i < r@.len() - 1 ==> !((#[trigger] r@[i]) is End) && !(r@[i] is Fault),
        r@.len() < REPLY_EVENTS ==> r@.len() > 0 && (r@.last() is End || r@.last() is Fault),
{
    let mut reader = open_reader(text);
    let mut events: Vec<XmlEvent> = Vec::new();
    while events.len() < REPLY_EVENTS
        invariant
            events@.len() <= REPLY_EVENTS,
            forall|i: int| 0 <= i < events@.len() ==> !((#[trigger] events@[i]) is End) && !(
            events@[i] is Fault),
        decreases REPLY_EVENTS - events@.len(),
    {
        let event = next_event(&mut reader);
        let last = match &event {
            XmlEvent::End | XmlEvent::Fault => true,
            _ => false,
        };
        events.push(event);
        if last {
            return events;
        }
    }
    events
}

/// Whether the events `a..b` were all read without a fault.
fn read_all_ok(es: &Vec<XmlEvent>, a: usize, b: usize) -> (r: bool)
    requires
        a <= b <= REPLY_EVENTS,
    ensures
        r == read_ok(es@.map_values(|e: XmlEvent| e@), a as int, b as int),
{
    let ghost v = es@.map_values(|e: XmlEvent| e@);
    let mut k = a;
    while k < b
        invariant
            a <= k <= b,
            b <= REPLY_EVENTS,
            v == es@.map_values(|e: XmlEvent| e@),
            forall|j: int| a <= j < k ==> !(#[trigger] event_at(v, j) is Fault),
        decreases b - k,
    {
        if k < es.len() {
            if let XmlEvent::Fault = &es[k] {
                assert(event_at(v, k as int) is Fault);
                return false;
            }
        }
        k = k + 1;
    }
    true
}

/// The integer that event `k` holds, or why it holds none.
fn int_event(es: &Vec<XmlEvent>, k: usize) -> (r: Result<i32, ResponseError>)
    ensures
        r == int_at(es@.map_values(|e: XmlEvent| e@), k as int),
{
    if k < es.len() {
        match &es[k] {
            XmlEvent::Text(t) => match parse_i32(t.deref()) {
                Some(v) => Ok(v),
                None => Err(ResponseError::InvalidStringToInt),
            },
            _ => Err(ResponseError::FailedXMLConvert),
        }
    } else {
        Err(ResponseError::FailedXMLConvert)
    }
}

/// The error code and error message of a reply, and where its payload starts.
fn read_header(es: &Vec<XmlEvent>) -> (r: Result<(i32, String, usize), ResponseError>)
    ensures
        ({
            let v = es@.map_values(|e: XmlEvent| e@);
            match reply_header(v) {
                Ok((code, msg)) => r matches Ok((c, m, p)) && c == code && m@ == msg && p
                    == payload_start(v),
                Err(e) => r == Err::<(i32, String, usize), ResponseError>(e),
            }
        }),
{
    if !read_all_ok(es, 0, 7) {
        return Err(ResponseError::FailedXMLParse);
    }
    let code = match int_event(es, 6) {
        Ok(c) => c,
        Err(e) => return Err(e),
    };
    let (message, start) = if es.len() > 9 {
        match &es[9] {
            XmlEvent::Text(t) => (t.clone(), 11),
            _ => (String::new(), 10),
        }
    } else {
        (String::new(), 10)
    };
    if !read_all_ok(es, 7, start) {
        return Err(ResponseError::FailedXMLParse);
    }
    Ok((code, message, start))
}

/// The status that a reply to a state query holds, read from its first events.
pub fn parse_status_events(es: &Vec<XmlEvent>) -> (r: Result<ECCStatusResponse, ResponseError>)
    ensures
        match status_reply(es@.map_values(|e: XmlEvent| e@)) {
            Ok(v) => r matches Ok(s) && s@ == v,
            Err(e) => r == Err::<ECCStatusResponse, ResponseError>(e),
        },
{
    let (error_code, error_message, p) = read_header(es)?;
    if !read_all_ok(es, p, p + 2) {
        return Err(ResponseError::FailedXMLParse);
    }
    let state = int_event(es, p + 1)?;
    if !read_all_ok(es, p + 2, p + 5) {
        return Err(ResponseError::FailedXMLParse);
    }
    let transition = int_event(es, p + 4)?;
    Ok(ECCStatusResponse { error_code, error_message, state, transition })
}

/// The outcome that a reply to an operation holds, read from its first events.
pub fn parse_operation_events(es: &Vec<XmlEvent>) -> (r: Result<
    ECCOperationResponse,
    ResponseError,
>)
    ensures
        match operation_reply(es@.map_values(|e: XmlEvent| e@)) {
            Ok(v) => r matches Ok(s) && s@ == v,
            Err(e) => r == Err::<ECCOperationResponse, ResponseError>(e),
        },
{
    let (error_code, error_message, p) = read_header(es)?;
    if !read_all_ok(es, p, p + 2) {
        return Err(ResponseError::FailedXMLParse);
    }
    let text = if p + 1 < es.len() {
        match &es[p + 1] {
            XmlEvent::Text(t) => t.clone(),
            _ => String::new(),
        }
    } else {
        String::new()
    };
    Ok(ECCOperationResponse { error_code, error_message, text })
}

} // verus!
