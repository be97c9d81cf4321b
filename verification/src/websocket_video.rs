//! The video sink: pictures go out over a WebSocket, each in a frame.

use vstd::prelude::*;

use crate::bytes::{
    be32, be32_at, law_be32_round_trip, law_orders_are_reversed, low32, number_in, push_all,
    push_be32, truncate_len,
};
use crate::media::{ErrorMessage, FlowError, StateChange};
use crate::request::{
    build_request, generate_key, handshake_key, header_value_ok, header_views,
    law_keys_are_header_values, lemma_bearer, parse_host, parsed_uri, plain_name, request_headers,
    request_method, request_uri, url_host, values_ok, AttemptFailure, Header,
};
use crate::retry::{Retry, RetryStep};
use crate::text::{opt_text, same_text};

verus! {

/// How long to wait for a connection, in milliseconds.
pub const DEFAULT_CONNECTION_TIMEOUT_MS: u32 = 5000;

/// How long to wait between two attempts to connect again, in milliseconds.
pub const DEFAULT_RECONNECT_DELAY_MS: u32 = 5000;

/// How often to try to connect again.
pub const DEFAULT_RECONNECT_ATTEMPTS: u32 = 3;

/// The settings of the element.
#[derive(Debug)]
pub struct Settings {
    pub url: Option<String>,
    pub api_key: Option<String>,
    pub connection_timeout_ms: u32,
    pub reconnect_delay_ms: u32,
    pub reconnect_attempts: u32,
}

impl Settings {
    /// Whether these are the settings of an element that was just made.
    pub open spec fn fresh(self) -> bool {
        &&& self.url is None
        &&& self.api_key is None
        &&& self.connection_timeout_ms == DEFAULT_CONNECTION_TIMEOUT_MS
        &&& self.reconnect_delay_ms == DEFAULT_RECONNECT_DELAY_MS
        &&& self.reconnect_attempts == DEFAULT_RECONNECT_ATTEMPTS
    }
}

impl Default for Settings {
    fn default() -> (r: Settings)
        ensures
            r.fresh(),
    {
        Settings {
            url: None,
            api_key: None,
            connection_timeout_ms: DEFAULT_CONNECTION_TIMEOUT_MS,
            reconnect_delay_ms: DEFAULT_RECONNECT_DELAY_MS,
            reconnect_attempts: DEFAULT_RECONNECT_ATTEMPTS,
        }
    }
}

// Properties.

/// A property of the element.
#[derive(Debug, Clone, Copy, PartialEq, Eq, Structural)]
pub enum Property {
    Url,
    ApiKey,
    ConnectionTimeoutMs,
    ReconnectDelayMs,
    ReconnectAttempts,
}

/// The value of a property.
#[derive(Debug)]
pub enum PropertyValue {
    Text(Option<String>),
    Number(u32),
}

impl Property {
    /// The name of the property.
    pub open spec fn key(self) -> Seq<char> {
        match self {
            Property::Url => "url"@,
            Property::ApiKey => "api-key"@,
            Property::ConnectionTimeoutMs => "connection-timeout-ms"@,
            Property::ReconnectDelayMs => "reconnect-delay-ms"@,
            Property::ReconnectAttempts => "reconnect-attempts"@,
        }
    }

    /// What the property is called where it is shown to users.
    pub open spec fn label(self) -> Seq<char> {
        match self {
            Property::Url => "URL"@,
            Property::ApiKey => "API Key"@,
            Property::ConnectionTimeoutMs => "Connection Timeout"@,
            Property::ReconnectDelayMs => "Reconnect Delay"@,
            Property::ReconnectAttempts => "Reconnect Attempts"@,
        }
    }

    /// What the property is for, in words for users.
    pub open spec fn purpose(self) -> Seq<char> {
        match self {
            Property::Url => "WebSocket server URL"@,
            Property::ApiKey => "API key for server authentication"@,
            Property::ConnectionTimeoutMs => "Connection timeout in milliseconds"@,
            Property::ReconnectDelayMs => "Time between connection attempts in milliseconds"@,
            Property::ReconnectAttempts => "Maximum number of reconnection attempts"@,
        }
    }

    /// Whether the property takes values like this one.
    pub open spec fn accepts(self, value: PropertyValue) -> bool {
        match self {
            Property::Url | Property::ApiKey => value is Text,
            _ => value is Number,
        }
    }

    /// The name of the property.
    pub fn name(&self) -> (r: &'static str)
        ensures
            r@ == self.key(),
    {
        match self {
            Property::Url => "url",
            Property::ApiKey => "api-key",
            Property::ConnectionTimeoutMs => "connection-timeout-ms",
            Property::ReconnectDelayMs => "reconnect-delay-ms",
            Property::ReconnectAttempts => "reconnect-attempts",
        }
    }

    /// What the property is called where it is shown to users.
    pub fn nick(&self) -> (r: &'static str)
        ensures
            r@ == self.label(),
    {
        match self {
            Property::Url => "URL",
            Property::ApiKey => "API Key",
            Property::ConnectionTimeoutMs => "Connection Timeout",
            Property::ReconnectDelayMs => "Reconnect Delay",
            Property::ReconnectAttempts => "Reconnect Attempts",
        }
    }

    /// What the property is for, in words for users.
    pub fn blurb(&self) -> (r: &'static str)
        ensures
            r@ == self.purpose(),
    {
        match self {
            Property::Url => "WebSocket server URL",
            Property::ApiKey => "API key for server authentication",
            Property::ConnectionTimeoutMs => "Connection timeout in milliseconds",
            Property::ReconnectDelayMs => "Time between connection attempts in milliseconds",
            Property::ReconnectAttempts => "Maximum number of reconnection attempts",
        }
    }

    /// Whether the property takes values like this one.
    pub fn takes(&self, value: &PropertyValue) -> (r: bool)
        ensures
            r == self.accepts(*value),
    {
        match (self, value) {
            (Property::Url, PropertyValue::Text(_)) => true,
            (Property::ApiKey, PropertyValue::Text(_)) => true,
            (Property::ConnectionTimeoutMs, PropertyValue::Number(_)) => true,
            (Property::ReconnectDelayMs, PropertyValue::Number(_)) => true,
            (Property::ReconnectAttempts, PropertyValue::Number(_)) => true,
            _ => false,
        }
    }

    /// The property with the name, if there is one.
    pub fn from_name(name: &str) -> (r: Option<Property>)
        ensures
            match r {
                Some(p) => p.key() == name@,
                None => forall|p: Property| #[trigger] p.key() != name@,
            },
    {
        if same_text(name, "url") {
            Some(Property::Url)
        } else if same_text(name, "api-key") {
            Some(Property::ApiKey)
        } else if same_text(name, "connection-timeout-ms") {
            Some(Property::ConnectionTimeoutMs)
        } else if same_text(name, "reconnect-delay-ms") {
            Some(Property::ReconnectDelayMs)
        } else if same_text(name, "reconnect-attempts") {
            Some(Property::ReconnectAttempts)
        } else {
            None
        }
    }
}

/// No two properties share a name.
pub proof fn law_property_names_distinct(p: Property, q: Property)
    requires
        p.key() == q.key(),
    ensures
        p == q,
{
    reveal_strlit("url");
    reveal_strlit("api-key");
    reveal_strlit("connection-timeout-ms");
    reveal_strlit("reconnect-delay-ms");
    reveal_strlit("reconnect-attempts");
    assert("url"@.len() == 3 && "api-key"@.len() == 7 && "connection-timeout-ms"@.len() == 21);
    assert("reconnect-delay-ms"@.len() == 18 && "reconnect-attempts"@.len() == 18);
    assert("reconnect-delay-ms"@[10] != "reconnect-attempts"@[10]);
}

impl Settings {
    /// What the settings hold for a property.
    pub open spec fn held(self, p: Property) -> PropertyValue {
        match p {
            Property::Url => PropertyValue::Text(self.url),
            Property::ApiKey => PropertyValue::Text(self.api_key),
            Property::ConnectionTimeoutMs => PropertyValue::Number(self.connection_timeout_ms),
            Property::ReconnectDelayMs => PropertyValue::Number(self.reconnect_delay_ms),
            Property::ReconnectAttempts => PropertyValue::Number(self.reconnect_attempts),
        }
    }

    /// Whether `after` is `before` with a property set, and with every other as
    /// it was.
    pub open spec fn written(
        before: Settings,
        after: Settings,
        p: Property,
        value: PropertyValue,
    ) -> bool {
        &&& after.held(p) == value
        &&& forall|q: Property| q != p ==> #[trigger] after.held(q) == before.held(q)
    }

    /// Sets a property, and leaves the others as they are.
    pub fn set_property(&mut self, p: Property, value: PropertyValue)
        requires
            p.accepts(value),
        ensures
            Self::written(*old(self), *final(self), p, value),
    {
        match value {
            PropertyValue::Text(text) => match p {
                Property::Url => {
                    self.url = text;
                },
                Property::ApiKey => {
                    self.api_key = text;
                },
                _ => {},
            },
            PropertyValue::Number(n) => match p {
                Property::ConnectionTimeoutMs => {
                    self.connection_timeout_ms = n;
                },
                Property::ReconnectDelayMs => {
                    self.reconnect_delay_ms = n;
                },
                Property::ReconnectAttempts => {
                    self.reconnect_attempts = n;
                },
                _ => {},
            },
        }
    }

    /// Reads a property.
    pub fn property(&self, p: Property) -> (r: PropertyValue)
        ensures
            r == self.held(p),
            p.accepts(r),
    {
        match p {
            Property::Url => PropertyValue::Text(self.url.clone()),
            Property::ApiKey => PropertyValue::Text(self.api_key.clone()),
            Property::ConnectionTimeoutMs => PropertyValue::Number(self.connection_timeout_ms),
            Property::ReconnectDelayMs => PropertyValue::Number(self.reconnect_delay_ms),
            Property::ReconnectAttempts => PropertyValue::Number(self.reconnect_attempts),
        }
    }
}

/// A property as it is declared.
#[derive(Debug)]
pub struct PropertySpec {
    pub property: Property,
    /// What it is called where it is shown to users.
    pub nick: &'static str,
    /// What it is for, in words for users.
    pub blurb: &'static str,
    /// What it holds unless it is set.
    pub default: PropertyValue,
    /// Whether it is set when the element is made.
    pub construct: bool,
}

/// The value that a property is declared to hold unless it is set.
pub open spec fn declared_default(p: Property) -> PropertyValue {
    match p {
        Property::Url => PropertyValue::Text(None),
        Property::ApiKey => PropertyValue::Text(None),
        Property::ConnectionTimeoutMs => PropertyValue::Number(DEFAULT_CONNECTION_TIMEOUT_MS),
        Property::ReconnectDelayMs => PropertyValue::Number(DEFAULT_RECONNECT_DELAY_MS),
        Property::ReconnectAttempts => PropertyValue::Number(DEFAULT_RECONNECT_ATTEMPTS),
    }
}

/// All properties, in the order in which they are declared.
pub open spec fn all_properties() -> Seq<Property> {
    seq![
        Property::Url,
        Property::ApiKey,
        Property::ConnectionTimeoutMs,
        Property::ReconnectDelayMs,
        Property::ReconnectAttempts,
    ]
}

/// Whether a declaration is the one of its property. Every property can be
/// read and written, and is set when the element is made.
pub open spec fn declares(spec: PropertySpec, p: Property) -> bool {
    &&& spec.property == p
    &&& spec.nick@ == p.label()
    &&& spec.blurb@ == p.purpose()
    &&& spec.default == declared_default(p)
    &&& spec.construct
}

impl PropertySpec {
    /// The declaration of a property.
    pub fn of(p: Property) -> (r: PropertySpec)
        ensures
            declares(r, p),
    {
        let default: PropertyValue = match p {
            Property::Url => PropertyValue::Text(None),
            Property::ApiKey => PropertyValue::Text(None),
            Property::ConnectionTimeoutMs => PropertyValue::Number(DEFAULT_CONNECTION_TIMEOUT_MS),
            Property::ReconnectDelayMs => PropertyValue::Number(DEFAULT_RECONNECT_DELAY_MS),
            Property::ReconnectAttempts => PropertyValue::Number(DEFAULT_RECONNECT_ATTEMPTS),
        };
        PropertySpec { property: p, nick: p.nick(), blurb: p.blurb(), default, construct: true }
    }
}

/// The declarations of all properties.
pub fn properties() -> (r: Vec<PropertySpec>)
    ensures
        r@.len() == all_properties().len(),
        forall|i: int| 0 <= i < r@.len() ==> declares(#[trigger] r@[i], all_properties()[i]),
{
    let mut specs: Vec<PropertySpec> = Vec::new();
    specs.push(PropertySpec::of(Property::Url));
    specs.push(PropertySpec::of(Property::ApiKey));
    specs.push(PropertySpec::of(Property::ConnectionTimeoutMs));
    specs.push(PropertySpec::of(Property::ReconnectDelayMs));
    specs.push(PropertySpec::of(Property::ReconnectAttempts));
    specs
}

/// Every property is declared, and a new element holds what its properties
/// are declared with.
pub proof fn law_defaults_as_declared(p: Property, settings: Settings)
    requires
        settings.fresh(),
    ensures
        all_properties().contains(p),
        settings.held(p) == declared_default(p),
{
    let i = match p {
        Property::Url => 0int,
        Property::ApiKey => 1,
        Property::ConnectionTimeoutMs => 2,
        Property::ReconnectDelayMs => 3,
        Property::ReconnectAttempts => 4,
    };
    assert(all_properties()[i] == p);
}

// Frames.

/// The first byte of a frame.
pub const SYNC_BYTE: u8 = 0x54;

/// The second byte of a frame that holds a picture.
pub const VIDEO_FRAME: u8 = 0x20;

/// The bytes of a frame before the picture.
pub const FRAME_HEADER_SIZE: usize = 10;

/// The number of the last frame that was made.
#[derive(Debug, Clone, Copy, PartialEq, Eq, Structural)]
pub struct MessageIds {
    pub last: u32,
}

impl MessageIds {
    /// No frame made yet.
    pub fn new() -> (r: MessageIds)
        ensures
            r.last == 0,
    {
        MessageIds { last: 0 }
    }
}

/// The frame around a picture: a sync byte, the type of the frame, its number,
/// the length of the picture, the picture, and a check byte that is zero.
pub open spec fn frame(id: u32, jpeg: Seq<u8>) -> Seq<u8> {
    seq![SYNC_BYTE, VIDEO_FRAME] + be32(id) + be32(low32(jpeg.len())) + jpeg + seq![0u8]
}

/// A picture in its frame.
#[derive(Debug)]
pub struct VideoMessage {
    pub data: Vec<u8>,
}

impl VideoMessage {
    /// Puts a picture in the next frame.
    pub fn new(ids: &mut MessageIds, jpeg_data: &[u8]) -> (r: VideoMessage)
        requires
            old(ids).last < u32::MAX,
        ensures
            final(ids).last == old(ids).last + 1,
            r.data@ == frame(final(ids).last, jpeg_data@),
    {
        let mut data: Vec<u8> = Vec::new();
        data.push(SYNC_BYTE);
        data.push(VIDEO_FRAME);
        ids.last = ids.last + 1;
        push_be32(&mut data, ids.last);
        push_be32(&mut data, truncate_len(jpeg_data.len()));
        push_all(&mut data, jpeg_data);
        data.push(0x00);
        assert(data@ =~= frame(ids.last, jpeg_data@));
        VideoMessage { data }
    }

    /// The bytes of the frame.
    pub fn as_bytes(&self) -> (r: &[u8])
        ensures
            r@ == self.data@,
    {
        self.data.as_slice()
    }
}

/// A frame can be taken apart again: its number, the length of the picture and
/// the picture stand where the frame says.
pub proof fn law_frame_can_be_read(id: u32, jpeg: Seq<u8>)
    requires
        jpeg.len() <= u32::MAX,
    ensures
        frame(id, jpeg).len() == FRAME_HEADER_SIZE + jpeg.len() + 1,
        frame(id, jpeg)[0] == SYNC_BYTE,
        frame(id, jpeg)[1] == VIDEO_FRAME,
        be32_at(frame(id, jpeg), 2) == id,
        be32_at(frame(id, jpeg), 6) == jpeg.len(),
        frame(id, jpeg).subrange(
            FRAME_HEADER_SIZE as int,
            FRAME_HEADER_SIZE + be32_at(frame(id, jpeg), 6),
        ) == jpeg,
        frame(id, jpeg).last() == 0,
{
    let all = frame(id, jpeg);
    law_be32_round_trip(id);
    law_be32_round_trip(low32(jpeg.len()));
    assert(be32_at(all, 2) == be32_at(be32(id), 0));
    assert(be32_at(all, 6) == be32_at(be32(low32(jpeg.len())), 0));
    assert(all.subrange(10, 10 + jpeg.len() as int) =~= jpeg);
}

/// Frames with different numbers differ, and so do frames around different
/// pictures.
pub proof fn law_frames_differ(id: u32, jpeg: Seq<u8>, other_id: u32, other: Seq<u8>)
    requires
        frame(id, jpeg) == frame(other_id, other),
    ensures
        id == other_id,
        jpeg == other,
{
    let all = frame(id, jpeg);
    law_be32_round_trip(id);
    law_be32_round_trip(other_id);
    assert(be32_at(all, 2) == be32_at(be32(id), 0));
    assert(be32_at(frame(other_id, other), 2) == be32_at(be32(other_id), 0));
    assert(all.subrange(10, all.len() - 1) =~= jpeg);
    assert(frame(other_id, other).subrange(10, all.len() - 1) =~= other);
}

// The connection.

/// What the element remembers of its connection.
#[derive(Debug, Clone, Copy, PartialEq, Eq, Structural)]
pub struct State {
    pub connected: bool,
    /// Whether messages are being received.
    pub receiving: bool,
    /// Whether frames are being sent.
    pub sending: bool,
    /// Whether there is a queue to put frames in.
    pub has_sender: bool,
}

impl State {
    /// Whether there is a queue, and the tasks around it, exactly where there
    /// is a connection.
    pub open spec fn wf(self) -> bool {
        &&& self.receiving == self.connected
        &&& self.sending == self.connected
        &&& self.has_sender == self.connected
    }
}

/// No connection.
pub open spec fn disconnected() -> State {
    State { connected: false, receiving: false, sending: false, has_sender: false }
}

impl Default for State {
    fn default() -> (r: State)
        ensures
            r == disconnected(),
            r.wf(),
    {
        State { connected: false, receiving: false, sending: false, has_sender: false }
    }
}

/// The headers that ask for a connection, names in lower case.
pub open spec fn upgrade_headers_view(
    host: Option<Seq<char>>,
    key: Seq<char>,
    api_key: Option<Seq<char>>,
) -> Seq<(Seq<char>, Seq<char>)> {
    seq![
        (
            "host"@,
            match host {
                Some(host) => host,
                None => ""@,
            },
        ),
        ("upgrade"@, "websocket"@),
        ("connection"@, "Upgrade"@),
        ("sec-websocket-key"@, key),
        ("sec-websocket-version"@, "13"@),
    ] + match api_key {
        Some(api_key) => seq![("authorization"@, "Bearer "@ + api_key)],
        None => Seq::empty(),
    }
}

/// The headers that ask for a connection: at the host if there is one, with
/// the key of the handshake, on behalf of the holder of the API key if there
/// is one.
pub fn upgrade_headers(host: Option<String>, key: String, api_key: &Option<String>) -> (r: Vec<
    Header,
>)
    ensures
        header_views(r@) == upgrade_headers_view(opt_text(host), key@, opt_text(*api_key)),
        forall|i: int| 0 <= i < r@.len() ==> plain_name((#[trigger] r@[i]).name@),
{
    let host_value: String = match host {
        Some(host) => host,
        None => "".to_string(),
    };
    let mut headers: Vec<Header> = Vec::new();
    headers.push(Header { name: "host", value: host_value });
    headers.push(Header { name: "upgrade", value: "websocket".to_string() });
    headers.push(Header { name: "connection", value: "Upgrade".to_string() });
    headers.push(Header { name: "sec-websocket-key", value: key });
    headers.push(Header { name: "sec-websocket-version", value: "13".to_string() });
    if let Some(api_key) = api_key {
        let mut bearer: String = "Bearer ".to_string();
        bearer.append(api_key.as_str());
        headers.push(Header { name: "authorization", value: bearer });
    }
    proof {
        reveal_strlit("host");
        reveal_strlit("upgrade");
        reveal_strlit("connection");
        reveal_strlit("sec-websocket-key");
        reveal_strlit("sec-websocket-version");
        reveal_strlit("authorization");
        assert(header_views(headers@) =~= upgrade_headers_view(
            opt_text(host),
            key@,
            opt_text(*api_key),
        ));
    }
    headers
}

/// What is needed to open a connection.
#[derive(Debug)]
pub struct ConnectPlan {
    pub request: http::Request<()>,
    pub timeout_ms: u64,
}

/// What has to be taken down with a connection.
#[derive(Debug, Clone, Copy, PartialEq, Eq, Structural)]
pub struct Teardown {
    pub stop_receiving: bool,
    pub stop_sending: bool,
}

/// What became of a frame that was offered to the queue.
#[derive(Debug, Clone, Copy, PartialEq, Eq, Structural)]
pub enum Offer {
    Accepted,
    /// The queue is full.
    Full,
    /// The other end of the queue is gone.
    Closed,
}

/// What happens to a picture on its way out.
#[derive(Debug, Clone, Copy, PartialEq, Eq, Structural)]
pub enum FrameEvent {
    /// There is a connection, or there cannot be one.
    Connected { worked: bool },
    /// The frame was offered to the queue.
    Offered(Offer),
    /// The connection was made again, or could not be.
    Reconnected { worked: bool },
    /// The frame was offered once more.
    OfferedAgain(Offer),
}

/// What is to be done next about a picture.
#[derive(Debug, Clone, Copy, PartialEq, Eq, Structural)]
pub enum FrameAction {
    /// Offer the frame to the queue.
    Offer,
    /// Make the connection again.
    Reconnect,
    /// Offer the frame once more.
    OfferAgain,
    /// The picture was sent or dropped.
    Done,
    /// The picture is refused.
    Refuse(FlowError),
}

/// What is to be done before a change of state.
#[derive(Debug, Clone, Copy, PartialEq, Eq, Structural)]
pub enum StateStep {
    Nothing,
    /// Connect; if that fails, so does the change.
    Connect,
    Disconnect(Teardown),
}

/// The element.
#[derive(Debug)]
pub struct WebsocketVideoSink {
    pub settings: Settings,
    pub state: State,
}

impl WebsocketVideoSink {
    /// The host of the address, if there is an address and it has one, or why
    /// the address is none.
    pub open spec fn host_view(self) -> Result<Option<Seq<char>>, Seq<char>> {
        match self.settings.url {
            Some(url) => url_host(url@),
            None => Ok(None),
        }
    }

    /// Whether a connection can be asked for: there is an address, which is one
    /// and can be the target of a request, and the host and the API key, if
    /// there are any, can stand in headers.
    pub open spec fn can_ask(self) -> bool {
        &&& self.settings.url is Some
        &&& self.host_view() is Ok
        &&& parsed_uri(self.settings.url->0@) is Ok
        &&& self.host_view()->Ok_0 is Some ==> header_value_ok(self.host_view()->Ok_0->0)
        &&& self.settings.api_key is Some ==> header_value_ok(self.settings.api_key->0@)
    }

    /// Whatever the key of the handshake, the headers that ask for a connection
    /// can have their values exactly if the host and the API key, if there are
    /// any, can stand in headers.
    pub proof fn law_asked_with_header_values(self, host: Option<Seq<char>>, key: Seq<char>)
        requires
            handshake_key(key),
        ensures
            values_ok(upgrade_headers_view(host, key, opt_text(self.settings.api_key))) <==> {
                &&& host is Some ==> header_value_ok(host->0)
                &&& self.settings.api_key is Some ==> header_value_ok(self.settings.api_key->0@)
            },
    {
        let all = upgrade_headers_view(host, key, opt_text(self.settings.api_key));
        law_keys_are_header_values(key);
        reveal_strlit("");
        reveal_strlit("websocket");
        reveal_strlit("Upgrade");
        reveal_strlit("13");
        if host is Some {
            assert(all[0].1 == host->0);
        } else {
            assert(all[0].1 == ""@);
        }
        assert(all[1].1 == "websocket"@);
        assert(all[2].1 == "Upgrade"@);
        assert(all[3].1 == key);
        assert(all[4].1 == "13"@);
        if self.settings.api_key is Some {
            lemma_bearer(self.settings.api_key->0@);
            assert(all[5].1 == "Bearer "@ + self.settings.api_key->0@);
        }
    }

    /// Whether `plan` is what the settings ask for, with the host of the
    /// address and the key of the handshake.
    pub open spec fn planned(
        self,
        host: Option<Seq<char>>,
        key: Seq<char>,
        plan: ConnectPlan,
    ) -> bool {
        let headers = upgrade_headers_view(host, key, opt_text(self.settings.api_key));
        &&& request_method(plan.request) == "GET"@
        &&& parsed_uri(self.settings.url->0@) == Ok::<Seq<char>, Seq<char>>(
            request_uri(plan.request),
        )
        &&& values_ok(headers)
        &&& request_headers(plan.request) == headers.to_multiset()
        &&& plan.timeout_ms == self.settings.connection_timeout_ms
    }

    /// Why the request cannot be put together, if it cannot.
    pub open spec fn request_error(
        self,
        host: Option<Seq<char>>,
        key: Seq<char>,
    ) -> Option<Seq<char>> {
        match parsed_uri(self.settings.url->0@) {
            Err(cause) => Some(cause),
            Ok(_) => if values_ok(
                upgrade_headers_view(host, key, opt_text(self.settings.api_key)),
            ) {
                None
            } else {
                Some("failed to parse header value"@)
            },
        }
    }

    /// Whether `result` is how a connection is begun, given the host of the
    /// address and the key of the handshake: not at all where there is a
    /// connection, and else with a plan, or with the reason why there is none.
    pub open spec fn begun(
        self,
        host: Result<Option<Seq<char>>, Seq<char>>,
        key: Seq<char>,
        result: Result<Option<ConnectPlan>, ErrorMessage>,
    ) -> bool {
        if self.state.connected {
            result == Ok::<Option<ConnectPlan>, ErrorMessage>(None)
        } else if self.settings.url is None {
            result is Err && result->Err_0@ == "No WebSocket URL provided"@
        } else {
            match host {
                Err(cause) => {
                    result is Err && result->Err_0@ == "Failed to parse provided url: "@ + cause
                },
                Ok(host) => match result {
                    Ok(Some(plan)) => self.planned(host, key, plan),
                    Ok(None) => false,
                    Err(e) => {
                        &&& self.request_error(host, key) is Some
                        &&& e@ == "Failed to build request: "@ + self.request_error(host, key)->0
                    },
                },
            }
        }
    }

    /// A new element.
    pub fn new() -> (r: WebsocketVideoSink)
        ensures
            r.state == disconnected(),
            r.settings.fresh(),
    {
        WebsocketVideoSink { settings: Settings::default(), state: State::default() }
    }

    /// Begins a connection, with the host of the address, or why the address
    /// is none, and the key of the handshake.
    pub fn begin_connection(&self, host: Result<Option<String>, String>, key: String) -> (r: Result<
        Option<ConnectPlan>,
        ErrorMessage,
    >)
        ensures
            self.begun(
                match host {
                    Ok(host) => Ok(opt_text(host)),
                    Err(e) => Err(e@),
                },
                key@,
                r,
            ),
    {
        if self.state.connected {
            return Ok(None);
        }
        let url: &String = match &self.settings.url {
            Some(url) => url,
            None => return Err(ErrorMessage::new("No WebSocket URL provided")),
        };
        let host: Option<String> = match host {
            Ok(host) => host,
            Err(e) => {
                return Err(ErrorMessage::because("Failed to parse provided url: ", e.as_str()));
            },
        };
        let headers: Vec<Header> = upgrade_headers(host, key, &self.settings.api_key);
        assert(headers@.len() == header_views(headers@).len());
        match build_request(url.as_str(), &headers) {
            Ok(request) => Ok(
                Some(
                    ConnectPlan {
                        request,
                        timeout_ms: self.settings.connection_timeout_ms as u64,
                    },
                ),
            ),
            Err(e) => Err(ErrorMessage::because("Failed to build request: ", e.as_str())),
        }
    }

    /// Begins a connection if there is none. The key of the handshake is a new
    /// one each time.
    pub fn ensure_connection(&self) -> (r: Result<Option<ConnectPlan>, ErrorMessage>)
        ensures
            exists|key: Seq<char>|
                #[trigger] self.begun(self.host_view(), key, r) && handshake_key(key),
            r is Ok <==> self.state.connected || self.can_ask(),
            r is Ok ==> (r->Ok_0 is Some <==> !self.state.connected),
    {
        let host: Result<Option<String>, String> = match &self.settings.url {
            Some(url) => parse_host(url.as_str()),
            None => Ok(None),
        };
        let key: String = generate_key();
        let ghost drawn = key@;
        let r = self.begin_connection(host, key);
        assert(self.begun(self.host_view(), drawn, r));
        proof {
            if self.host_view() is Ok {
                self.law_asked_with_header_values(self.host_view()->Ok_0, drawn);
            }
        }
        r
    }

    /// Takes note of how the attempt to connect ended, if it was made: `None`
    /// where it has worked.
    pub fn connection_ended(&mut self, failure: Option<AttemptFailure>) -> (r: Result<
        (),
        ErrorMessage,
    >)
        ensures
            final(self).settings == old(self).settings,
            match failure {
                None => {
                    &&& r is Ok
                    &&& final(self).state == State {
                        connected: true,
                        receiving: true,
                        sending: true,
                        has_sender: true,
                    }
                },
                Some(failure) => {
                    &&& r is Err
                    &&& r->Err_0@ == failure.words()
                    &&& final(self).state == old(self).state
                },
            },
            old(self).state.wf() ==> final(self).state.wf(),
    {
        match failure {
            None => {
                self.state = State {
                    connected: true,
                    receiving: true,
                    sending: true,
                    has_sender: true,
                };
                Ok(())
            },
            Some(failure) => Err(ErrorMessage { text: failure.text() }),
        }
    }

    /// Forgets the connection. What was running on it has to be stopped.
    pub fn disconnect(&mut self) -> (r: Teardown)
        ensures
            final(self).settings == old(self).settings,
            final(self).state == disconnected(),
            final(self).state.wf(),
            r.stop_receiving == old(self).state.receiving,
            r.stop_sending == old(self).state.sending,
    {
        let teardown = Teardown {
            stop_receiving: self.state.receiving,
            stop_sending: self.state.sending,
        };
        self.state = State::default();
        teardown
    }

    /// Forgets the connection in order to make it again. Returns what was
    /// running on it, the attempts that may be made, and the first step.
    pub fn try_reconnect(&mut self) -> (r: (Teardown, Retry, RetryStep))
        ensures
            final(self).settings == old(self).settings,
            final(self).state == disconnected(),
            r.0.stop_receiving == old(self).state.receiving,
            r.0.stop_sending == old(self).state.sending,
            r.1 == (Retry {
                attempts: 0,
                max_attempts: old(self).settings.reconnect_attempts,
                delay_ms: old(self).settings.reconnect_delay_ms as u64,
            }),
            if old(self).settings.reconnect_attempts > 0 {
                r.2 == RetryStep::Attempt
            } else {
                r.2 is GiveUp && r.2->GiveUp_0@ == "Failed to reconnect after all attempts"@
            },
    {
        let retry = Retry::new(
            self.settings.reconnect_attempts,
            self.settings.reconnect_delay_ms as u64,
        );
        let teardown = self.disconnect();
        let step = retry.begin("Failed to reconnect after all attempts".to_string());
        (teardown, retry, step)
    }

    /// What is to be done next about a picture. A frame for which there is no
    /// room is dropped; one whose queue is gone is offered once more when the
    /// connection was made again.
    pub fn sink_chain(&self, event: FrameEvent) -> (r: FrameAction)
        ensures
            r == match event {
                FrameEvent::Connected { worked } => if worked && self.state.has_sender {
                    FrameAction::Offer
                } else {
                    FrameAction::Refuse(FlowError::Error)
                },
                FrameEvent::Offered(offer) => if offer == Offer::Closed {
                    FrameAction::Reconnect
                } else {
                    FrameAction::Done
                },
                FrameEvent::Reconnected { worked } => if worked && self.state.has_sender {
                    FrameAction::OfferAgain
                } else {
                    FrameAction::Refuse(FlowError::Error)
                },
                FrameEvent::OfferedAgain(offer) => if offer == Offer::Accepted {
                    FrameAction::Done
                } else {
                    FrameAction::Refuse(FlowError::Error)
                },
            },
    {
        match event {
            FrameEvent::Connected { worked } => if worked && self.state.has_sender {
                FrameAction::Offer
            } else {
                FrameAction::Refuse(FlowError::Error)
            },
            FrameEvent::Offered(offer) => match offer {
                Offer::Accepted => FrameAction::Done,
                Offer::Full => FrameAction::Done,
                Offer::Closed => FrameAction::Reconnect,
            },
            FrameEvent::Reconnected { worked } => if worked && self.state.has_sender {
                FrameAction::OfferAgain
            } else {
                FrameAction::Refuse(FlowError::Error)
            },
            FrameEvent::OfferedAgain(offer) => match offer {
                Offer::Accepted => FrameAction::Done,
                _ => FrameAction::Refuse(FlowError::Error),
            },
        }
    }

    /// What is to be taken down on an event on the input: the connection, at
    /// the end of the stream. Every event is accepted.
    pub fn sink_event(&mut self, is_eos: bool) -> (r: Option<Teardown>)
        ensures
            final(self).settings == old(self).settings,
            if is_eos {
                &&& final(self).state == disconnected()
                &&& r == Some(
                    Teardown {
                        stop_receiving: old(self).state.receiving,
                        stop_sending: old(self).state.sending,
                    },
                )
            } else {
                final(self).state == old(self).state && r is None
            },
    {
        if is_eos {
            Some(self.disconnect())
        } else {
            None
        }
    }

    /// What is to be done before a change of state: there is a connection
    /// while the element plays, and none once it is no longer paused.
    pub fn change_state(&mut self, transition: StateChange) -> (r: StateStep)
        ensures
            final(self).settings == old(self).settings,
            match transition {
                StateChange::PausedToPlaying => {
                    r == StateStep::Connect && final(self).state == old(self).state
                },
                StateChange::PausedToReady | StateChange::ReadyToNull => {
                    &&& final(self).state == disconnected()
                    &&& r == StateStep::Disconnect(
                        Teardown {
                            stop_receiving: old(self).state.receiving,
                            stop_sending: old(self).state.sending,
                        },
                    )
                },
                _ => r == StateStep::Nothing && final(self).state == old(self).state,
            },
    {
        match transition {
            StateChange::PausedToPlaying => StateStep::Connect,
            StateChange::PausedToReady => StateStep::Disconnect(self.disconnect()),
            StateChange::ReadyToNull => StateStep::Disconnect(self.disconnect()),
            _ => StateStep::Nothing,
        }
    }
}

/// What is written under a property is what the element works with, in the
/// field that is meant and in no other.
pub proof fn law_writing_sets_what_is_meant(
    before: Settings,
    after: Settings,
    p: Property,
    value: PropertyValue,
)
    requires
        p.accepts(value),
        Settings::written(before, after, p, value),
    ensures
        after.url == if p == Property::Url {
            value->Text_0
        } else {
            before.url
        },
        after.api_key == if p == Property::ApiKey {
            value->Text_0
        } else {
            before.api_key
        },
        after.connection_timeout_ms == if p == Property::ConnectionTimeoutMs {
            value->Number_0
        } else {
            before.connection_timeout_ms
        },
        after.reconnect_delay_ms == if p == Property::ReconnectDelayMs {
            value->Number_0
        } else {
            before.reconnect_delay_ms
        },
        after.reconnect_attempts == if p == Property::ReconnectAttempts {
            value->Number_0
        } else {
            before.reconnect_attempts
        },
{
    assert(p != Property::Url ==> after.held(Property::Url) == before.held(
        Property::Url,
    ));
    assert(p != Property::ApiKey ==> after.held(Property::ApiKey) == before.held(
        Property::ApiKey,
    ));
    assert(p != Property::ConnectionTimeoutMs ==> after.held(Property::ConnectionTimeoutMs)
        == before.held(
        Property::ConnectionTimeoutMs,
    ));
    assert(p != Property::ReconnectDelayMs ==> after.held(Property::ReconnectDelayMs)
        == before.held(
        Property::ReconnectDelayMs,
    ));
    assert(p != Property::ReconnectAttempts ==> after.held(Property::ReconnectAttempts)
        == before.held(
        Property::ReconnectAttempts,
    ));
}

/// The properties are declared under these names, in this order, and hold
/// these values in a new element.
pub proof fn law_declared_properties(s: Settings)
    requires
        s.fresh(),
    ensures
        all_properties().map_values(|p: Property| p.key()) == seq![
            "url"@,
            "api-key"@,
            "connection-timeout-ms"@,
            "reconnect-delay-ms"@,
            "reconnect-attempts"@,
        ],
        s.url is None,
        s.api_key is None,
        s.connection_timeout_ms == 5000,
        s.reconnect_delay_ms == 5000,
        s.reconnect_attempts == 3,
        declared_default(Property::Url) == PropertyValue::Text(None),
        declared_default(Property::ApiKey) == PropertyValue::Text(None),
        declared_default(Property::ConnectionTimeoutMs) == PropertyValue::Number(5000),
        declared_default(Property::ReconnectDelayMs) == PropertyValue::Number(5000),
        declared_default(Property::ReconnectAttempts) == PropertyValue::Number(3),
        forall|p: Property| #[trigger] p.accepts(s.held(p)),
{
    assert(all_properties().map_values(|p: Property| p.key()) =~= seq![
        "url"@,
        "api-key"@,
        "connection-timeout-ms"@,
        "reconnect-delay-ms"@,
        "reconnect-attempts"@,
    ]);
}

/// A frame is 0x54, 0x20, its number and the length of the picture with the
/// most significant byte first, the picture, and a zero.
pub proof fn law_frame_bytes(id: u32, jpeg: Seq<u8>)
    ensures
        frame(id, jpeg).len() == 11 + jpeg.len(),
        frame(id, jpeg)[0] == 0x54,
        frame(id, jpeg)[1] == 0x20,
        number_in(frame(id, jpeg).subrange(2, 6).reverse()) == id,
        number_in(frame(id, jpeg).subrange(6, 10).reverse()) == jpeg.len() % 4294967296,
        frame(id, jpeg).subrange(10, 10 + jpeg.len() as int) == jpeg,
        frame(id, jpeg)[10 + jpeg.len() as int] == 0,
{
    let all = frame(id, jpeg);
    law_orders_are_reversed(id);
    law_orders_are_reversed(low32(jpeg.len()));
    assert(all.subrange(2, 6) =~= be32(id));
    assert(all.subrange(6, 10) =~= be32(low32(jpeg.len())));
    assert(all.subrange(10, 10 + jpeg.len() as int) =~= jpeg);
}

/// What a connection is asked for with: the host, or an empty one where the
/// address has none, the upgrade, the key, and the API key if there is one.
pub proof fn law_upgrade_headers(
    host: Option<Seq<char>>,
    key: Seq<char>,
    api_key: Option<Seq<char>>,
)
    ensures
        ({
            let headers = upgrade_headers_view(host, key, api_key);
            &&& headers.len() == if api_key is Some {
                6nat
            } else {
                5
            }
            &&& host is Some ==> headers.contains(("host"@, host->0))
            &&& host is None ==> headers.contains(("host"@, ""@))
            &&& headers.contains(("upgrade"@, "websocket"@))
            &&& headers.contains(("connection"@, "Upgrade"@))
            &&& headers.contains(("sec-websocket-key"@, key))
            &&& headers.contains(("sec-websocket-version"@, "13"@))
            &&& api_key is Some ==> headers.contains(("authorization"@, "Bearer "@ + api_key->0))
        }),
{
    let headers = upgrade_headers_view(host, key, api_key);
    assert(headers.contains(headers[0]));
    assert(headers.contains(headers[1]));
    assert(headers.contains(headers[2]));
    assert(headers.contains(headers[3]));
    assert(headers.contains(headers[4]));
    if api_key is Some {
        assert(headers.contains(headers[5]));
    }
}

/// A connection is begun only where there is none. It is asked for at the
/// address, with every header and no other, and has the time that the settings
/// give; without an address, or with one that cannot be read, the reason is
/// told.
pub proof fn law_connection_is_begun(
    sink: WebsocketVideoSink,
    host: Result<Option<Seq<char>>, Seq<char>>,
    key: Seq<char>,
    result: Result<Option<ConnectPlan>, ErrorMessage>,
)
    requires
        sink.begun(host, key, result),
    ensures
        sink.state.connected ==> result is Ok && result->Ok_0 is None,
        result is Ok && result->Ok_0 is None ==> sink.state.connected,
        !sink.state.connected && sink.settings.url is None ==> result is Err && result->Err_0@
            == "No WebSocket URL provided"@,
        !sink.state.connected && sink.settings.url is Some && host is Err ==> result is Err
            && result->Err_0@ == "Failed to parse provided url: "@ + host->Err_0,
        !sink.state.connected && sink.settings.url is Some && host is Ok && parsed_uri(
            sink.settings.url->0@,
        ) is Err ==> result is Err && result->Err_0@ == "Failed to build request: "@ + parsed_uri(
            sink.settings.url->0@,
        )->Err_0,
        result is Ok && result->Ok_0 is Some ==> {
            let plan = result->Ok_0->0;
            let headers = request_headers(plan.request);
            &&& request_method(plan.request) == "GET"@
            &&& parsed_uri(sink.settings.url->0@) == Ok::<Seq<char>, Seq<char>>(
                request_uri(plan.request),
            )
            &&& headers == upgrade_headers_view(
                host->Ok_0,
                key,
                if sink.settings.api_key is Some {
                    Some(sink.settings.api_key->0@)
                } else {
                    None
                },
            ).to_multiset()
            &&& plan.timeout_ms == sink.settings.connection_timeout_ms
        },
{
}

/// The address's host is the one that is asked for.
pub proof fn law_host_is_of_the_address(sink: WebsocketVideoSink)
    requires
        sink.settings.url is Some,
    ensures
        sink.host_view() == url_host(sink.settings.url->0@),
{
}

/// With a connection there are a queue and both tasks, and without one there is
/// none of them; an element that is not connected has nothing left of it.
pub proof fn law_connection_is_whole(state: State)
    ensures
        state.wf() ==> state.has_sender == state.connected && state.receiving == state.connected
            && state.sending == state.connected,
        state == disconnected() <==> !state.connected && !state.receiving && !state.sending
            && !state.has_sender,
        state.wf() && !state.connected ==> state == disconnected(),
{
}

/// Each picture gets the next number and a frame that gives number, length and
/// picture back.
pub proof fn law_video_message(ids: &mut MessageIds, jpeg_data: &[u8], message: VideoMessage)
    requires
        old(ids).last < u32::MAX,
        call_ensures(VideoMessage::new, (ids, jpeg_data), message),
    ensures
        final(ids).last == old(ids).last + 1,
        message.data@.len() == 11 + jpeg_data@.len(),
        message.data@[0] == 0x54,
        message.data@[1] == 0x20,
        number_in(message.data@.subrange(2, 6).reverse()) == old(ids).last + 1,
        number_in(message.data@.subrange(6, 10).reverse()) == jpeg_data@.len() % 4294967296,
        message.data@.subrange(10, 10 + jpeg_data@.len() as int) == jpeg_data@,
        message.data@.last() == 0,
{
    law_frame_bytes(final(ids).last, jpeg_data@);
}

/// A frame is offered while there is a queue. One for which the queue has no
/// room is dropped; one whose queue is gone is offered once more when the
/// connection was made again, and must find room then.
pub proof fn law_frames_on_their_way(
    sink: &WebsocketVideoSink,
    event: FrameEvent,
    action: FrameAction,
)
    requires
        call_ensures(WebsocketVideoSink::sink_chain, (sink, event), action),
    ensures
        action is Offer <==> event == (FrameEvent::Connected { worked: true })
            && sink.state.has_sender,
        action is OfferAgain <==> event == (FrameEvent::Reconnected { worked: true })
            && sink.state.has_sender,
        action is Reconnect <==> event == FrameEvent::Offered(Offer::Closed),
        action is Done <==> event == FrameEvent::Offered(Offer::Accepted) || event
            == FrameEvent::Offered(Offer::Full) || event == FrameEvent::OfferedAgain(
            Offer::Accepted,
        ),
        action is Refuse ==> action->Refuse_0 == FlowError::Error,
{
}

/// An attempt that worked gives a whole connection, and any other leaves things
/// as they were and says why.
pub proof fn law_attempt_ends(
    sink: &mut WebsocketVideoSink,
    failure: Option<AttemptFailure>,
    result: Result<(), ErrorMessage>,
)
    requires
        call_ensures(WebsocketVideoSink::connection_ended, (sink, failure), result),
    ensures
        result is Ok <==> failure is None,
        result is Ok ==> final(sink).state.connected && final(sink).state.has_sender && final(
            sink).state.receiving && final(sink).state.sending,
        result is Err ==> final(sink).state == old(sink).state,
        failure is Some && failure->0 is Socket ==> result->Err_0@
            == "WebSocket connection error: "@ + failure->0->Socket_0@,
        failure is Some && failure->0 is TimedOut ==> result->Err_0@ == "Connection timeout: "@
            + failure->0->TimedOut_0@,
        final(sink).settings == old(sink).settings,
{
}

/// Disconnecting leaves nothing of a connection, and has stopped what ran on
/// it.
pub proof fn law_disconnecting(sink: &mut WebsocketVideoSink, teardown: Teardown)
    requires
        call_ensures(WebsocketVideoSink::disconnect, (sink,), teardown),
    ensures
        !final(sink).state.connected,
        !final(sink).state.has_sender,
        !final(sink).state.receiving,
        !final(sink).state.sending,
        teardown.stop_receiving == old(sink).state.receiving,
        teardown.stop_sending == old(sink).state.sending,
        final(sink).settings == old(sink).settings,
{
}

/// Making a connection again gives up the old one, and tries as often and with
/// such pauses as the settings say; where no attempt is allowed, it fails at
/// once.
pub proof fn law_reconnecting(sink: &mut WebsocketVideoSink, result: (Teardown, Retry, RetryStep))
    requires
        call_ensures(WebsocketVideoSink::try_reconnect, (sink,), result),
    ensures
        !final(sink).state.connected,
        !final(sink).state.has_sender,
        result.0.stop_receiving == old(sink).state.receiving,
        result.0.stop_sending == old(sink).state.sending,
        result.1.attempts == 0,
        result.1.max_attempts == old(sink).settings.reconnect_attempts,
        result.1.delay_ms == old(sink).settings.reconnect_delay_ms,
        result.2 is Attempt <==> old(sink).settings.reconnect_attempts > 0,
        old(sink).settings.reconnect_attempts == 0 ==> result.2 is GiveUp && result.2->GiveUp_0@
            == "Failed to reconnect after all attempts"@,
        final(sink).settings == old(sink).settings,
{
}

/// The end of the stream disconnects, and no other event does.
pub proof fn law_input_events(
    sink: &mut WebsocketVideoSink,
    is_eos: bool,
    teardown: Option<Teardown>,
)
    requires
        call_ensures(WebsocketVideoSink::sink_event, (sink, is_eos), teardown),
    ensures
        teardown is Some <==> is_eos,
        is_eos ==> !final(sink).state.connected && !final(sink).state.has_sender,
        !is_eos ==> final(sink).state == old(sink).state,
        is_eos ==> teardown->0.stop_receiving == old(sink).state.receiving
            && teardown->0.stop_sending == old(sink).state.sending,
{
}

/// An element connects when it starts to play, and disconnects when it leaves
/// the paused or the ready state downwards.
pub proof fn law_state_changes(
    sink: &mut WebsocketVideoSink,
    transition: StateChange,
    step: StateStep,
)
    requires
        call_ensures(WebsocketVideoSink::change_state, (sink, transition), step),
    ensures
        step is Connect <==> transition is PausedToPlaying,
        step is Disconnect <==> transition is PausedToReady || transition is ReadyToNull,
        step is Disconnect ==> !final(sink).state.connected && !final(sink).state.has_sender,
        !(step is Disconnect) ==> final(sink).state == old(sink).state,
        final(sink).settings == old(sink).settings,
{
}

/// A connection is asked for, where there is none, exactly if there is an
/// address that can be read and be a target, and nothing in host or API key
/// that headers do not take.
pub proof fn law_connection_is_owed(
    sink: &WebsocketVideoSink,
    result: Result<Option<ConnectPlan>, ErrorMessage>,
)
    requires
        call_ensures(WebsocketVideoSink::ensure_connection, (sink,), result),
    ensures
        sink.state.connected ==> result is Ok && result->Ok_0 is None,
        !sink.state.connected ==> (result is Ok <==> {
            &&& sink.settings.url is Some
            &&& url_host(sink.settings.url->0@) is Ok
            &&& parsed_uri(sink.settings.url->0@) is Ok
            &&& url_host(sink.settings.url->0@)->Ok_0 is Some ==> header_value_ok(
                url_host(sink.settings.url->0@)->Ok_0->0,
            )
            &&& sink.settings.api_key is Some ==> header_value_ok(sink.settings.api_key->0@)
        }),
        !sink.state.connected && result is Ok ==> result->Ok_0 is Some && result->Ok_0->0.timeout_ms
            == sink.settings.connection_timeout_ms,
        !sink.state.connected && sink.settings.url is None ==> result->Err_0@
            == "No WebSocket URL provided"@,
{
    let key = choose|key: Seq<char>| #[trigger]
        sink.begun(sink.host_view(), key, result) && handshake_key(key);
    law_connection_is_begun(*sink, sink.host_view(), key, result);
}

/// Setting a property changes its field, and no other.
pub proof fn law_set_property(s: &mut Settings, p: Property, value: PropertyValue)
    requires
        p.accepts(value),
        call_ensures(Settings::set_property, (s, p, value), ()),
    ensures
        p == Property::Url ==> final(s).url == value->Text_0,
        p != Property::Url ==> final(s).url == old(s).url,
        p == Property::ApiKey ==> final(s).api_key == value->Text_0,
        p != Property::ApiKey ==> final(s).api_key == old(s).api_key,
        p == Property::ConnectionTimeoutMs ==> final(s).connection_timeout_ms == value->Number_0,
        p != Property::ConnectionTimeoutMs ==> final(s).connection_timeout_ms == old(
            s).connection_timeout_ms,
        p == Property::ReconnectDelayMs ==> final(s).reconnect_delay_ms == value->Number_0,
        p == Property::ReconnectAttempts ==> final(s).reconnect_attempts == value->Number_0,
{
    assert(Settings::written(*old(s), *final(s), p, value));
    law_writing_sets_what_is_meant(*old(s), *final(s), p, value);
}

} // verus!
