//! What a control module reports, and how a control envoy addresses its module.
use crate::constants::{
    ADDRESS_START, DATA_EXPORTER_LISTENER_PORT, DATA_ROUTER_LISTENER_PORT, MUTANT_ID, PROTOCOL,
};
use crate::ecc_operation::operation_name;
use crate::error::EmbassyError;
use crate::message::{decode_operation, EmbassyMessage, MessageKind, ToMessage};
use crate::text::{decimal, push_decimal, push_str};
use std::ops::Deref;
use vstd::prelude::*;
use vstd::string::*;

verus! {

/// The outcome of an operation on a control module.
#[derive(Debug)]
pub struct ECCOperationResponse {
    pub error_code: i32,
    pub error_message: String,
    pub text: String,
}

/// The value of an operation outcome.
pub struct OperationResponseRecord {
    pub error_code: i32,
    pub error_message: Seq<char>,
    pub text: Seq<char>,
}

impl View for ECCOperationResponse {
    type V = OperationResponseRecord;

    open spec fn view(&self) -> OperationResponseRecord {
        OperationResponseRecord {
            error_code: self.error_code,
            error_message: self.error_message@,
            text: self.text@,
        }
    }
}

impl Default for ECCOperationResponse {
    fn default() -> (r: Self)
        ensures
            r@ == (OperationResponseRecord {
                error_code: 0,
                error_message: Seq::empty(),
                text: Seq::empty(),
            }),
    {
        ECCOperationResponse { error_code: 0, error_message: String::new(), text: String::new() }
    }
}

impl ToMessage for ECCOperationResponse {
    open spec fn spec_kind(&self) -> MessageKind {
        MessageKind::ECCOpResponse
    }

    fn message_kind(&self) -> (k: MessageKind) {
        MessageKind::ECCOpResponse
    }
}

/// The last known status of a control module.
#[derive(Debug)]
pub struct ECCStatusResponse {
    pub error_code: i32,
    pub error_message: String,
    pub state: i32,
    pub transition: i32,
}

/// The value of a module status.
pub struct StatusRecord {
    pub error_code: i32,
    pub error_message: Seq<char>,
    pub state: i32,
    pub transition: i32,
}

impl View for ECCStatusResponse {
    type V = StatusRecord;

    open spec fn view(&self) -> StatusRecord {
        StatusRecord {
            error_code: self.error_code,
            error_message: self.error_message@,
            state: self.state,
            transition: self.transition,
        }
    }
}

/// The status of a module that has not reported: no error, state code zero (offline).
pub open spec fn default_status() -> StatusRecord {
    StatusRecord { error_code: 0, error_message: Seq::empty(), state: 0, transition: 0 }
}

impl Default for ECCStatusResponse {
    fn default() -> (r: Self)
        ensures
            r@ == default_status(),
    {
        ECCStatusResponse {
            error_code: 0,
            error_message: String::new(),
            state: 0,
            transition: 0,
        }
    }
}

impl ECCStatusResponse {
    /// A copy of this status.
    pub fn duplicate(&self) -> (r: Self)
        ensures
            r@ == self@,
    {
        ECCStatusResponse {
            error_code: self.error_code,
            error_message: self.error_message.clone(),
            state: self.state,
            transition: self.transition,
        }
    }
}

impl ToMessage for ECCStatusResponse {
    open spec fn spec_kind(&self) -> MessageKind {
        MessageKind::ECCStatus
    }

    fn message_kind(&self) -> (k: MessageKind) {
        MessageKind::ECCStatus
    }
}

/// Port of the control endpoint of a module.
pub const ECC_URL_PORT: usize = 8083;

/// Network address of module `id`: the master has a reserved host, a front-end the host
/// sixty past its id.
pub open spec fn ecc_address(id: usize) -> Seq<char> {
    if id == MUTANT_ID {
        ADDRESS_START@ + ".1"@
    } else {
        ADDRESS_START@ + "."@ + decimal(60 + id as nat)
    }
}

/// Control endpoint at an address.
pub open spec fn ecc_url(address: Seq<char>) -> Seq<char> {
    "http://"@ + address + ":"@ + decimal(ECC_URL_PORT as nat)
}

/// Name under which module `id` is described: the experiment for the master, `cobo<id>` for
/// a front-end.
pub open spec fn describe_name(id: usize, experiment: Seq<char>) -> Seq<char> {
    if id == MUTANT_ID {
        experiment
    } else {
        "cobo"@ + decimal(id as nat)
    }
}

/// Name of module `id` as a data source.
pub open spec fn source_name(id: usize) -> Seq<char> {
    if id == MUTANT_ID {
        "Mutant[master]"@
    } else {
        "CoBo["@ + decimal(id as nat) + "]"@
    }
}

/// Name of the data router of module `id`.
pub open spec fn router_name(id: usize) -> Seq<char> {
    "data"@ + decimal(id as nat)
}

/// Name of the data exporter of module `id`.
pub open spec fn exporter_name(id: usize) -> Seq<char> {
    "exporter"@ + decimal(id as nat)
}

/// The configuration of a module: its description name, then the experiment as the name of
/// its preparation and of its configuration.
pub open spec fn config_body(describe: Seq<char>, experiment: Seq<char>) -> Seq<char> {
    CONFIG_OPEN@ + describe + CONFIG_PREPARE@ + experiment + CONFIG_CONFIGURE@ + experiment
        + CONFIG_CLOSE@
}

/// The two data links of a module: one to its data router, one to its data exporter, both
/// at the address of the module.
pub open spec fn data_link_body(
    source: Seq<char>,
    ip: Seq<char>,
    router: Seq<char>,
    exporter: Seq<char>,
) -> Seq<char> {
    LINK_OPEN@ + source + LINK_ROUTER_IP@ + ip + LINK_NAME@ + router + LINK_PORT@ + decimal(
        DATA_ROUTER_LISTENER_PORT as nat,
    ) + LINK_TYPE@ + PROTOCOL@ + LINK_NEXT@ + source + LINK_ROUTER_IP@ + ip + LINK_NAME@
        + exporter + LINK_PORT@ + decimal(DATA_EXPORTER_LISTENER_PORT as nat) + LINK_TYPE@
        + PROTOCOL@ + LINK_CLOSE@
}

/// The envelope of every request to a control endpoint, before its body.
pub const ECC_SOAP_HEADER: &'static str = "<?xml version=\"1.0\" encoding=\"UTF-8\"?>
    <SOAP-ENV:Envelope 
    xmlns:SOAP-ENV=\"http://schemas.xmlsoap.org/soap/envelope/\" 
    xmlns:SOAP-ENC=\"http://schemas.xmlsoap.org/soap/encoding/\"
    xmlns:xsi=\"http://www.w3.org/2001/XMLSchema-instance\"
    xmlns:xsd=\"http://www.w3.org/2001/XMLSchema\"
    xmlns=\"urn:ecc\">
    <SOAP-ENV:Body>
";

/// The envelope of every request to a control endpoint, after its body.
pub const ECC_SOAP_FOOTER: &'static str = "
    </SOAP-ENV:Body>
    </SOAP-ENV:Envelope>
";

pub const CONFIG_OPEN: &'static str = "<configID>
                        <ConfigId>
                            <SubConfigId type=\"describe\">
                                ";

pub const CONFIG_PREPARE: &'static str = "
                            </SubConfigId>
                            <SubConfigId type=\"prepare\">
                                ";

pub const CONFIG_CONFIGURE: &'static str = "
                            </SubConfigId>
                            <SubConfigId type=\"configure\">
                                ";

pub const CONFIG_CLOSE: &'static str = "
                            </SubConfigId>
                        </ConfigId>
                    </configID>";

pub const LINK_OPEN: &'static str = "<table>
                        <DataLinkSet>
                            <DataLink>
                                <DataSender id=\"";

pub const LINK_ROUTER_IP: &'static str = "\" />
                                <DataRouter ipAddress=\"";

pub const LINK_NAME: &'static str = "\" name=\"";

pub const LINK_PORT: &'static str = "\" port=\"";

pub const LINK_TYPE: &'static str = "\" type=\"";

pub const LINK_NEXT: &'static str = "\" />
                            </DataLink>
                            <DataLink>
                                <DataSender id=\"";

pub const LINK_CLOSE: &'static str = "\" />
                            </DataLink>
                        </DataLinkSet>
                    </table>";

/// The request for the state of a module.
pub open spec fn status_request_text() -> Seq<char> {
    ECC_SOAP_HEADER@ + "<GetState>\n</GetState>\n"@ + ECC_SOAP_FOOTER@
}

/// The request that a module perform an operation, with the configuration and data links of
/// that module.
pub open spec fn operation_request_text(
    op_name: Seq<char>,
    config: Seq<char>,
    link: Seq<char>,
) -> Seq<char> {
    ECC_SOAP_HEADER@ + "<"@ + op_name + ">\n"@ + config + link + "</"@ + op_name + ">\n"@
        + ECC_SOAP_FOOTER@
}

/// How a control envoy addresses its module.
#[derive(Debug)]
pub struct ECCConfig {
    id: usize,
    experiment: String,
    address: String,
    url: String,
}

impl ECCConfig {
    /// The module id.
    pub closed spec fn spec_id(&self) -> usize {
        self.id
    }

    /// The experiment name.
    pub closed spec fn spec_experiment(&self) -> Seq<char> {
        self.experiment@
    }

    /// The network address of the module.
    pub closed spec fn spec_address(&self) -> Seq<char> {
        self.address@
    }

    /// The control endpoint of the module.
    pub closed spec fn spec_url(&self) -> Seq<char> {
        self.url@
    }

    /// The configuration of module `id` for an experiment.
    pub fn new(id: usize, experiment: &str) -> (r: ECCConfig)
        requires
            id <= usize::MAX - 60,
        ensures
            r.spec_id() == id,
            r.spec_experiment() == experiment@,
            r.spec_address() == ecc_address(id),
            r.spec_url() == ecc_url(ecc_address(id)),
    {
        let mut address = String::new();
        push_str(&mut address, ADDRESS_START);
        if id == MUTANT_ID {
            push_str(&mut address, ".1");
        } else {
            push_str(&mut address, ".");
            push_decimal(&mut address, (60 + id) as u64);
        }
        assert(address@ =~= ecc_address(id));
        let url = Self::url(address.deref());
        ECCConfig { id, experiment: String::from_str(experiment), address, url }
    }

    /// The address of the module.
    pub fn address(&self) -> (r: &String)
        ensures
            r@ == self.spec_address(),
    {
        &self.address
    }

    /// The control endpoint of the module.
    pub fn endpoint(&self) -> (r: &String)
        ensures
            r@ == self.spec_url(),
    {
        &self.url
    }

    /// The module id.
    pub fn id(&self) -> (r: usize)
        ensures
            r == self.spec_id(),
    {
        self.id
    }

    /// The configuration of the module, as sent with every operation.
    pub fn compose_config_body(&self) -> (r: String)
        ensures
            r@ == config_body(
                describe_name(self.spec_id(), self.spec_experiment()),
                self.spec_experiment(),
            ),
    {
        let describe = self.describe();
        let mut body = String::new();
        push_str(&mut body, CONFIG_OPEN);
        push_str(&mut body, describe.deref());
        push_str(&mut body, CONFIG_PREPARE);
        push_str(&mut body, self.experiment.deref());
        push_str(&mut body, CONFIG_CONFIGURE);
        push_str(&mut body, self.experiment.deref());
        push_str(&mut body, CONFIG_CLOSE);
        assert(body@ =~= config_body(
            describe_name(self.spec_id(), self.spec_experiment()),
            self.spec_experiment(),
        ));
        body
    }

    /// The data links of the module, as sent with every operation.
    pub fn compose_data_link_body(&self) -> (r: String)
        ensures
            r@ == data_link_body(
                source_name(self.spec_id()),
                self.spec_address(),
                router_name(self.spec_id()),
                exporter_name(self.spec_id()),
            ),
    {
        let source = self.source();
        let router = self.data_router();
        let exporter = self.data_exporter();
        let mut body = String::new();
        push_str(&mut body, LINK_OPEN);
        push_str(&mut body, source.deref());
        push_str(&mut body, LINK_ROUTER_IP);
        push_str(&mut body, self.address.deref());
        push_str(&mut body, LINK_NAME);
        push_str(&mut body, router.deref());
        push_str(&mut body, LINK_PORT);
        push_decimal(&mut body, DATA_ROUTER_LISTENER_PORT as u64);
        push_str(&mut body, LINK_TYPE);
        push_str(&mut body, PROTOCOL);
        push_str(&mut body, LINK_NEXT);
        push_str(&mut body, source.deref());
        push_str(&mut body, LINK_ROUTER_IP);
        push_str(&mut body, self.address.deref());
        push_str(&mut body, LINK_NAME);
        push_str(&mut body, exporter.deref());
        push_str(&mut body, LINK_PORT);
        push_decimal(&mut body, DATA_EXPORTER_LISTENER_PORT as u64);
        push_str(&mut body, LINK_TYPE);
        push_str(&mut body, PROTOCOL);
        push_str(&mut body, LINK_CLOSE);
        assert(body@ =~= data_link_body(
            source_name(self.spec_id()),
            self.spec_address(),
            router_name(self.spec_id()),
            exporter_name(self.spec_id()),
        ));
        body
    }

    /// The name under which the module is described.
    pub fn describe(&self) -> (r: String)
        ensures
            r@ == describe_name(self.spec_id(), self.spec_experiment()),
    {
        if self.id == MUTANT_ID {
            self.experiment.clone()
        } else {
            let mut r = String::new();
            push_str(&mut r, "cobo");
            push_decimal(&mut r, self.id as u64);
            r
        }
    }

    /// The name of the module as a data source.
    pub fn source(&self) -> (r: String)
        ensures
            r@ == source_name(self.spec_id()),
    {
        if self.id == MUTANT_ID {
            String::from_str("Mutant[master]")
        } else {
            let mut r = String::new();
            push_str(&mut r, "CoBo[");
            push_decimal(&mut r, self.id as u64);
            push_str(&mut r, "]");
            r
        }
    }

    /// The name of the data router of the module.
    pub fn data_router(&self) -> (r: String)
        ensures
            r@ == router_name(self.spec_id()),
    {
        let mut r = String::new();
        push_str(&mut r, "data");
        push_decimal(&mut r, self.id as u64);
        r
    }

    /// The name of the data exporter of the module.
    pub fn data_exporter(&self) -> (r: String)
        ensures
            r@ == exporter_name(self.spec_id()),
    {
        let mut r = String::new();
        push_str(&mut r, "exporter");
        push_decimal(&mut r, self.id as u64);
        r
    }

    /// The control endpoint at an address.
    pub fn url(address: &str) -> (r: String)
        ensures
            r@ == ecc_url(address@),
    {
        let mut r = String::new();
        push_str(&mut r, "http://");
        push_str(&mut r, address);
        push_str(&mut r, ":");
        push_decimal(&mut r, ECC_URL_PORT as u64);
        r
    }
}

/// The request for the state of a module.
pub fn compose_status_request() -> (r: String)
    ensures
        r@ == status_request_text(),
{
    let mut r = String::new();
    push_str(&mut r, ECC_SOAP_HEADER);
    push_str(&mut r, "<GetState>\n</GetState>\n");
    push_str(&mut r, ECC_SOAP_FOOTER);
    r
}

/// The request that the module of `config` perform the operation that `message` asks for.
/// Fails as reading the operation from the message does.
pub fn compose_operation_request(config: &ECCConfig, message: &EmbassyMessage) -> (r: Result<
    String,
    EmbassyError,
>)
    ensures
        message.kind != MessageKind::ECCOperation ==> r is Err,
        message.kind == MessageKind::ECCOperation ==> match decode_operation(message.body@) {
            Some(op) => r is Ok && r->Ok_0@ == operation_request_text(
                operation_name(op),
                config_body(
                    describe_name(config.spec_id(), config.spec_experiment()),
                    config.spec_experiment(),
                ),
                data_link_body(
                    source_name(config.spec_id()),
                    config.spec_address(),
                    router_name(config.spec_id()),
                    exporter_name(config.spec_id()),
                ),
            ),
            None => r is Err,
        },
{
    let op = message.to_ecc_operation()?;
    let name = op.to_string();
    let body = config.compose_config_body();
    let link = config.compose_data_link_body();
    let mut r = String::new();
    push_str(&mut r, ECC_SOAP_HEADER);
    push_str(&mut r, "<");
    push_str(&mut r, name.deref());
    push_str(&mut r, ">\n");
    push_str(&mut r, body.deref());
    push_str(&mut r, link.deref());
    push_str(&mut r, "</");
    push_str(&mut r, name.deref());
    push_str(&mut r, ">\n");
    push_str(&mut r, ECC_SOAP_FOOTER);
    Ok(r)
}

} // verus!
