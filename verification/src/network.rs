//! The remote service as the supervisor sees it: an account's binding, the
//! requests it sends and the way an answer is classified.
//!
//! Nothing here touches the network. A request is described, whoever sends it
//! reports what came back as an [`Exchange`], and the answer is settled into
//! a value or an [`ApiError`].

use crate::client::{Outbound, OutboundView};
use crate::text::join;
use vstd::prelude::*;
use vstd::string::*;

verus! {

/// Where the service lives.
pub const API_BASE_URL: &'static str = "https://gateway-run.bls.dev/api/v1";

/// The extension version that calls on a node announce.
pub const X_EXTENSION_VERSION: &'static str = "0.1.5";

/// The service that tells a caller the address it is seen at.
pub const ADDRESS_SERVICE_URL: &'static str = "https://tight-block-2413.txlabs.workers.dev";

/// Why a call to the service failed.
#[derive(Clone, Copy, Debug, PartialEq, Eq, Structural)]
pub enum ApiError {
    /// The request could not be sent, or the answer's body could not be read.
    Transport,
    /// The service answered with a status outside 200..=299.
    HttpStatus(u16),
    /// The answer's body is not what the call returns.
    Parse,
    /// The service rejected the account's credential.
    Unauthorized,
}

/// The request methods in use.
#[derive(Clone, Copy, Debug, PartialEq, Eq, Structural)]
pub enum Method {
    Get,
    Post,
}

/// One header of a request.
#[derive(Debug, PartialEq, Eq)]
pub struct Header {
    pub name: String,
    pub value: String,
}

impl View for Header {
    type V = (Seq<char>, Seq<char>);

    open spec fn view(&self) -> (Seq<char>, Seq<char>) {
        (self.name@, self.value@)
    }
}

/// The JSON object that a request carries.
#[derive(Debug, PartialEq, Eq)]
pub enum Payload {
    /// No body.
    Empty,
    /// `hardwareId`, and `ipAddress` where an address is reported.
    Registration { ip_address: Option<String>, hardware_id: String },
    /// `isB7SConnected`.
    Heartbeat { is_b7s_connected: bool },
}

/// Mathematical value of a [`Payload`].
pub enum PayloadView {
    Empty,
    Registration { ip_address: Option<Seq<char>>, hardware_id: Seq<char> },
    Heartbeat { is_b7s_connected: bool },
}

impl View for Payload {
    type V = PayloadView;

    open spec fn view(&self) -> PayloadView {
        match self {
            Payload::Empty => PayloadView::Empty,
            Payload::Registration { ip_address, hardware_id } => PayloadView::Registration {
                ip_address: ip_address.deep_view(),
                hardware_id: hardware_id@,
            },
            Payload::Heartbeat { is_b7s_connected } => PayloadView::Heartbeat {
                is_b7s_connected: *is_b7s_connected,
            },
        }
    }
}

/// A request to the service, ready to be sent.
#[derive(Debug, PartialEq, Eq)]
pub struct Request {
    pub method: Method,
    pub url: String,
    pub headers: Vec<Header>,
    pub body: Payload,
}

/// Mathematical value of a [`Request`].
pub struct RequestView {
    pub method: Method,
    pub url: Seq<char>,
    pub headers: Seq<(Seq<char>, Seq<char>)>,
    pub body: PayloadView,
}

impl View for Request {
    type V = RequestView;

    open spec fn view(&self) -> RequestView {
        RequestView {
            method: self.method,
            url: self.url@,
            headers: self.headers@.map_values(|header: Header| header@),
            body: self.body@,
        }
    }
}

/// The header that carries the credential.
pub open spec fn authorization(token: Seq<char>) -> (Seq<char>, Seq<char>) {
    ("Authorization"@, "Bearer "@ + token)
}

/// The header that announces the extension version.
pub open spec fn extension_version() -> (Seq<char>, Seq<char>) {
    ("X-Extension-Version"@, X_EXTENSION_VERSION@)
}

/// The header that declares a JSON body.
pub open spec fn json_content() -> (Seq<char>, Seq<char>) {
    ("Content-Type"@, "application/json"@)
}

/// The address of a node's resource, or of one of the operations under it.
pub open spec fn node_url(pub_key: Seq<char>, operation: Seq<char>) -> Seq<char> {
    API_BASE_URL@ + "/nodes/"@ + pub_key + operation
}

/// The request that lists an account's nodes.
pub open spec fn nodes_request(token: Seq<char>) -> RequestView {
    RequestView {
        method: Method::Get,
        url: API_BASE_URL@ + "/nodes"@,
        headers: seq![authorization(token)],
        body: PayloadView::Empty,
    }
}

/// The request that registers a node. The address is reported where there is
/// one.
pub open spec fn register_request(
    token: Seq<char>,
    pub_key: Seq<char>,
    hardware_id: Seq<char>,
    addr: Option<Seq<char>>,
) -> RequestView {
    RequestView {
        method: Method::Post,
        url: node_url(pub_key, Seq::empty()),
        headers: seq![authorization(token), extension_version()],
        body: PayloadView::Registration { ip_address: addr, hardware_id },
    }
}

/// The request that opens (`/start-session`) or closes (`/stop-session`) a
/// node's session.
pub open spec fn session_request(token: Seq<char>, pub_key: Seq<char>, operation: Seq<char>) -> RequestView {
    RequestView {
        method: Method::Post,
        url: node_url(pub_key, operation),
        headers: seq![authorization(token), extension_version()],
        body: PayloadView::Empty,
    }
}

/// The heartbeat of a node.
pub open spec fn ping_request(token: Seq<char>, pub_key: Seq<char>) -> RequestView {
    RequestView {
        method: Method::Post,
        url: node_url(pub_key, "/ping"@),
        headers: seq![json_content(), authorization(token), extension_version()],
        body: PayloadView::Heartbeat { is_b7s_connected: true },
    }
}

/// The request that asks the address service how this machine is seen.
pub open spec fn address_request() -> RequestView {
    RequestView {
        method: Method::Get,
        url: ADDRESS_SERVICE_URL@,
        headers: Seq::empty(),
        body: PayloadView::Empty,
    }
}

/// An account's binding to the remote service: its credential and the route
/// its requests take.
#[derive(Debug, PartialEq, Eq)]
pub struct Bless {
    access_token: String,
    client: Outbound,
}

/// Mathematical value of a [`Bless`].
pub struct BlessView {
    pub access_token: Seq<char>,
    pub client: OutboundView,
}

impl View for Bless {
    type V = BlessView;

    closed spec fn view(&self) -> BlessView {
        BlessView { access_token: self.access_token@, client: self.client@ }
    }
}

impl Clone for Bless {
    fn clone(&self) -> (copy: Bless)
        ensures
            copy@ == self@,
    {
        Bless { access_token: self.access_token.clone(), client: self.client.clone() }
    }
}

/// The service's answer to a call that returns no data of its own.
#[derive(Debug, Clone, PartialEq, Eq)]
pub struct ApiResponse {
    pub status: Option<String>,
}

/// One session of a node, as the service lists it.
#[derive(Debug, Clone, PartialEq, Eq)]
pub struct Session {
    pub _id: String,
    pub pub_key: String,
    pub start_at: String,
    pub pings: Vec<String>,
    pub __v: u32,
}

/// A node of an account, as the service lists it.
#[derive(Debug, Clone, PartialEq, Eq)]
pub struct Node {
    pub _id: String,
    /// The node's identity.
    pub pub_key: String,
    pub user_id: String,
    pub __v: u32,
    pub created_at: String,
    pub hardware_id: String,
    /// The hardware description, as the JSON text the service sent.
    pub hardware_info: Option<String>,
    /// The address the node was last seen at.
    pub ip_address: Option<String>,
    pub updated_at: String,
    pub sessions: Vec<Session>,
    pub total_reward: u32,
    pub today_reward: u32,
    pub is_connected: bool,
}

/// The service's answer to a heartbeat.
#[derive(Debug, Clone, PartialEq, Eq)]
pub struct Ping {
    pub timestamp: String,
    pub node_id: String,
    pub is_b7s_connected: bool,
    pub _id: String,
    pub __v: u32,
}

impl Bless {
    /// Binds a credential to the route its requests take.
    pub fn new(client: Outbound, access_token: String) -> (bless: Bless)
        ensures
            bless@ == (BlessView { access_token: access_token@, client: client@ }),
    {
        Bless { access_token, client }
    }

    /// The credential.
    pub fn access_token(&self) -> (token: &str)
        ensures
            token@ == self@.access_token,
    {
        self.access_token.as_str()
    }

    /// The route that requests under this binding take.
    pub fn client(&self) -> (client: &Outbound)
        ensures
            client@ == self@.client,
    {
        &self.client
    }

    fn authorization(&self) -> (header: Header)
        ensures
            header@ == authorization(self@.access_token),
    {
        Header {
            name: "Authorization".to_owned(),
            value: join("Bearer ", self.access_token.as_str()),
        }
    }

    fn node_url(pub_key: &str, operation: &str) -> (url: String)
        ensures
            url@ == node_url(pub_key@, operation@),
    {
        let mut url = join(API_BASE_URL, "/nodes/");
        url.append(pub_key);
        url.append(operation);
        url
    }

    fn session(&self, pub_key: &str, operation: &str) -> (request: Request)
        ensures
            request@ == session_request(self@.access_token, pub_key@, operation@),
    {
        let mut headers = Vec::new();
        headers.push(self.authorization());
        headers.push(extension_version_header());
        let request = Request {
            method: Method::Post,
            url: Bless::node_url(pub_key, operation),
            headers,
            body: Payload::Empty,
        };
        assert(request@.headers =~= seq![
            authorization(self@.access_token),
            extension_version(),
        ]);
        request
    }

    /// The request that lists the account's nodes.
    pub fn nodes(&self) -> (request: Request)
        ensures
            request@ == nodes_request(self@.access_token),
    {
        let mut headers = Vec::new();
        headers.push(self.authorization());
        let request = Request {
            method: Method::Get,
            url: join(API_BASE_URL, "/nodes"),
            headers,
            body: Payload::Empty,
        };
        assert(request@.headers =~= seq![authorization(self@.access_token)]);
        request
    }

    /// The request that registers the node `pub_key` with its hardware
    /// identifier. `addr`, where given, is reported as the node's address.
    pub fn register(&self, pub_key: &str, hardware_id: &str, addr: Option<&str>) -> (request:
        Request)
        ensures
            request@ == register_request(
                self@.access_token,
                pub_key@,
                hardware_id@,
                addr.deep_view(),
            ),
    {
        let mut headers = Vec::new();
        headers.push(self.authorization());
        headers.push(extension_version_header());
        let request = Request {
            method: Method::Post,
            url: Bless::node_url(pub_key, ""),
            headers,
            body: Payload::Registration {
                ip_address: match addr {
                    Some(addr) => Some(addr.to_owned()),
                    None => None,
                },
                hardware_id: hardware_id.to_owned(),
            },
        };
        proof {
            reveal_strlit("");
        }
        assert(request@.headers =~= seq![
            authorization(self@.access_token),
            extension_version(),
        ]);
        request
    }

    /// The request that opens a session for the node `pub_key`.
    pub fn init_session(&self, pub_key: &str) -> (request: Request)
        ensures
            request@ == session_request(self@.access_token, pub_key@, "/start-session"@),
    {
        self.session(pub_key, "/start-session")
    }

    /// The request that closes the session of the node `pub_key`.
    pub fn stop_session(&self, pub_key: &str) -> (request: Request)
        ensures
            request@ == session_request(self@.access_token, pub_key@, "/stop-session"@),
    {
        self.session(pub_key, "/stop-session")
    }

    /// The heartbeat of the node `pub_key`.
    pub fn ping(&self, pub_key: &str) -> (request: Request)
        ensures
            request@ == ping_request(self@.access_token, pub_key@),
    {
        let mut headers = Vec::new();
        headers.push(
            Header { name: "Content-Type".to_owned(), value: "application/json".to_owned() },
        );
        headers.push(self.authorization());
        headers.push(extension_version_header());
        let request = Request {
            method: Method::Post,
            url: Bless::node_url(pub_key, "/ping"),
            headers,
            body: Payload::Heartbeat { is_b7s_connected: true },
        };
        assert(request@.headers =~= seq![
            json_content(),
            authorization(self@.access_token),
            extension_version(),
        ]);
        request
    }
}

fn extension_version_header() -> (header: Header)
    ensures
        header@ == extension_version(),
{
    Header { name: "X-Extension-Version".to_owned(), value: X_EXTENSION_VERSION.to_owned() }
}

/// The request that asks the address service how this machine is seen from
/// outside.
pub fn what_my_addr() -> (request: Request)
    ensures
        request@ == address_request(),
{
    let request = Request {
        method: Method::Get,
        url: ADDRESS_SERVICE_URL.to_owned(),
        headers: Vec::new(),
        body: Payload::Empty,
    };
    assert(request@.headers =~= Seq::empty());
    request
}

/// What became of the body of an answer.
#[derive(Debug, PartialEq, Eq)]
pub enum Body<T> {
    /// It could not be read off the connection.
    Unread,
    /// It was read, but it is not what the call returns.
    Malformed,
    /// It was read as this value.
    Parsed(T),
}

/// What came of sending a request.
#[derive(Debug, PartialEq, Eq)]
pub enum Exchange<T> {
    /// The request could not be sent.
    Failed,
    /// The service answered with this status and body.
    Answered { status: u16, body: Body<T> },
}

/// Whether a status stands for success: 200 to 299.
pub open spec fn succeeded(status: u16) -> bool {
    200 <= status < 300
}

/// Whether a status stands for success.
pub fn is_success(status: u16) -> (success: bool)
    ensures
        success == succeeded(status),
{
    200 <= status && status < 300
}

/// What a body yields where the status does not stand in the way: its value,
/// a transport error where it could not be read, a parse error where it is
/// not what the call returns.
pub open spec fn body_value<T>(body: Body<T>) -> Result<T, ApiError> {
    match body {
        Body::Unread => Err(ApiError::Transport),
        Body::Malformed => Err(ApiError::Parse),
        Body::Parsed(value) => Ok(value),
    }
}

/// How a call on a node ends: a request that could not be sent is a
/// transport error, a status outside 200..=299 an HTTP error whatever the
/// body, and anything else what the body yields.
pub open spec fn settled<T>(exchange: Exchange<T>) -> Result<T, ApiError> {
    match exchange {
        Exchange::Failed => Err(ApiError::Transport),
        Exchange::Answered { status, body } => if succeeded(status) {
            body_value(body)
        } else {
            Err(ApiError::HttpStatus(status))
        },
    }
}

/// How the listing of an account's nodes ends: as any call does, but that a
/// status outside 200..=299 means that the credential was rejected.
pub open spec fn listed<T>(exchange: Exchange<T>) -> Result<T, ApiError> {
    match settled(exchange) {
        Err(ApiError::HttpStatus(_)) => Err(ApiError::Unauthorized),
        other => other,
    }
}

/// How the question for this machine's address ends: the status is not
/// looked at, only whether an answer came and what its body yields.
pub open spec fn located<T>(exchange: Exchange<T>) -> Result<T, ApiError> {
    match exchange {
        Exchange::Failed => Err(ApiError::Transport),
        Exchange::Answered { status, body } => body_value(body),
    }
}

fn value_of<T>(body: Body<T>) -> (result: Result<T, ApiError>)
    ensures
        result == body_value(body),
{
    match body {
        Body::Unread => Err(ApiError::Transport),
        Body::Malformed => Err(ApiError::Parse),
        Body::Parsed(value) => Ok(value),
    }
}

/// Settles a call on a node: registration, session open or close, heartbeat.
pub fn settle<T>(exchange: Exchange<T>) -> (result: Result<T, ApiError>)
    ensures
        result == settled(exchange),
{
    match exchange {
        Exchange::Failed => Err(ApiError::Transport),
        Exchange::Answered { status, body } => {
            if is_success(status) {
                value_of(body)
            } else {
                Err(ApiError::HttpStatus(status))
            }
        },
    }
}

/// Settles the listing of an account's nodes.
pub fn settle_listing<T>(exchange: Exchange<T>) -> (result: Result<T, ApiError>)
    ensures
        result == listed(exchange),
{
    match settle(exchange) {
        Err(ApiError::HttpStatus(_)) => Err(ApiError::Unauthorized),
        other => other,
    }
}

/// Settles the question for this machine's address.
pub fn settle_address<T>(exchange: Exchange<T>) -> (result: Result<T, ApiError>)
    ensures
        result == located(exchange),
{
    match exchange {
        Exchange::Failed => Err(ApiError::Transport),
        Exchange::Answered { status, body } => value_of(body),
    }
}

} // verus!
