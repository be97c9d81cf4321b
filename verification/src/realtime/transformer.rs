//! The element as a whole: its connection, and the audio that goes out on it.

use std::collections::BTreeSet;
use vstd::prelude::*;

use crate::clock::{ClockTime, NS_PER_MS};
use crate::media::{Buffer, ErrorMessage, FlowError, StateChange};
use crate::realtime::audio::{
    audio_length_ns, base64_decoded, base64_encode, base64_encoded, calculate_audio_length_ms,
    lemma_audio_length_ms,
};
use crate::realtime::client_event::{
    ClientEvent, InputAudioBufferAppend, InputAudioBufferCommit, ResponseCreate, SessionUpdate,
};
use crate::realtime::session::{configured, session_update};
use crate::realtime::settings::{default_held, Property, Settings};
use crate::request::{
    build_request, generate_key, handshake_key, header_value_ok, header_views, host_and_port,
    law_keys_are_header_values, law_user_is_cut_off, lemma_bearer, parse_authority, parsed_uri,
    plain_name, request_headers, request_method, request_uri, url_authority, values_ok,
    without_user, Header,
};
use crate::retry::Retry;
use crate::text::{
    decimal, decimal_text, law_decimal_injective, law_decimal_is_read_back, opt_text, read_decimal,
};

verus! {

/// What the element remembers of its connection and its pads. A pad is known
/// by a number.
#[derive(Debug)]
pub struct State {
    pub connected: bool,
    /// Whether messages are being received.
    pub receiving: bool,
    /// Whether audio was handed to the connection.
    pub sending: bool,
    /// How much audio was sent since it was last committed.
    pub acc_audio_duration: ClockTime,
    /// The number that the next requested pad is named by.
    pub pad_serial: u32,
    pub srcpads: BTreeSet<u64>,
    /// Whether a timer was started that commits the audio.
    pub commit_armed: bool,
}

impl State {
    /// Whether this is the state of an element that was just made.
    pub open spec fn fresh(self) -> bool {
        &&& !self.connected
        &&& !self.receiving
        &&& !self.sending
        &&& self.acc_audio_duration.ns == 0
        &&& self.pad_serial == 0
        &&& self.srcpads@ == Set::<u64>::empty()
        &&& !self.commit_armed
    }
}

impl Default for State {
    fn default() -> (r: State)
        ensures
            r.fresh(),
    {
        State {
            connected: false,
            receiving: false,
            sending: false,
            acc_audio_duration: ClockTime::zero(),
            pad_serial: 0,
            srcpads: BTreeSet::new(),
            commit_armed: false,
        }
    }
}

// The request for a connection.

/// The headers that ask for a connection, names in lower case.
pub open spec fn upgrade_headers_view(
    host: Seq<char>,
    key: Seq<char>,
    api_key: Seq<char>,
    agent_id: Option<Seq<char>>,
) -> Seq<(Seq<char>, Seq<char>)> {
    seq![
        ("host"@, host),
        ("upgrade"@, "websocket"@),
        ("connection"@, "keep-alive, upgrade"@),
        ("sec-websocket-key"@, key),
        ("sec-websocket-version"@, "13"@),
        ("authorization"@, "Bearer "@ + api_key),
    ] + match agent_id {
        Some(id) => seq![("x-ticos-agent-id"@, id)],
        None => Seq::empty(),
    }
}

proof fn lemma_plain_names()
    ensures
        plain_name("host"@),
        plain_name("upgrade"@),
        plain_name("connection"@),
        plain_name("sec-websocket-key"@),
        plain_name("sec-websocket-version"@),
        plain_name("authorization"@),
        plain_name("x-ticos-agent-id"@),
{
    reveal_strlit("host");
    reveal_strlit("upgrade");
    reveal_strlit("connection");
    reveal_strlit("sec-websocket-key");
    reveal_strlit("sec-websocket-version");
    reveal_strlit("authorization");
    reveal_strlit("x-ticos-agent-id");
}

/// The headers that ask for a connection: at `host`, with the key of the
/// handshake, on behalf of the holder of `api_key`, for the agent if there is
/// one.
pub fn upgrade_headers(
    host: String,
    key: String,
    api_key: &str,
    agent_id: &Option<String>,
) -> (r: Vec<Header>)
    ensures
        header_views(r@) == upgrade_headers_view(host@, key@, api_key@, opt_text(*agent_id)),
        forall|i: int| 0 <= i < r@.len() ==> plain_name((#[trigger] r@[i]).name@),
{
    let mut bearer: String = "Bearer ".to_string();
    bearer.append(api_key);
    let mut headers: Vec<Header> = Vec::new();
    headers.push(Header { name: "host", value: host });
    headers.push(Header { name: "upgrade", value: "websocket".to_string() });
    headers.push(Header { name: "connection", value: "keep-alive, upgrade".to_string() });
    headers.push(Header { name: "sec-websocket-key", value: key });
    headers.push(Header { name: "sec-websocket-version", value: "13".to_string() });
    headers.push(Header { name: "authorization", value: bearer });
    if let Some(id) = agent_id {
        headers.push(Header { name: "x-ticos-agent-id", value: id.clone() });
    }
    proof {
        lemma_plain_names();
        assert(header_views(headers@) =~= upgrade_headers_view(
            host@,
            key@,
            api_key@,
            opt_text(*agent_id),
        ));
    }
    headers
}

/// What is needed to open a connection.
#[derive(Debug)]
pub struct ConnectPlan {
    /// What to ask the server for.
    pub request: http::Request<()>,
    /// The first message to send.
    pub update: SessionUpdate,
    /// How often to try.
    pub retry: Retry,
    /// How long to wait for the connection, and then for the server to agree,
    /// in milliseconds.
    pub timeout_ms: u64,
}

/// Why no connection can be asked for.
#[derive(Debug)]
pub enum ConnectRefusal {
    /// The settings do not allow it.
    Settings(ErrorMessage),
    /// The request cannot be put together, for the reason given.
    Request(String),
}

/// How the attempt to connect ended.
#[derive(Debug)]
pub enum ConnectOutcome {
    Connected,
    Failed(String),
    Lost,
}

/// What has to be taken down with a connection.
#[derive(Debug, Clone, Copy, PartialEq, Eq, Structural)]
pub struct Teardown {
    pub stop_receiving: bool,
    pub stop_sending: bool,
}

// Audio on the connection.

/// What became of a buffer that was to be sent.
#[derive(Debug, Clone, Copy, PartialEq, Eq, Structural)]
pub enum SendOutcome {
    /// There is no connection to send it on.
    NoConnection,
    /// There was no buffer.
    NoBuffer,
    Sent,
    Failed,
}

/// What follows when a buffer was sent.
#[derive(Debug, Clone, Copy, PartialEq, Eq, Structural)]
pub struct SendPlan {
    /// Whether the timer that was started before has to be stopped.
    pub disarm: bool,
    /// How many milliseconds from now the audio is to be committed, if it is.
    pub arm: Option<u64>,
}

/// What happens to a timer that commits the audio.
#[derive(Debug, Clone, Copy, PartialEq, Eq, Structural)]
pub enum CommitEvent {
    /// The time is over, and there is a connection or not.
    Due { has_connection: bool },
    /// The audio was committed, or could not be.
    Committed { sent: bool },
    /// A response was asked for, or could not be.
    Asked { sent: bool },
}

/// What is to be done next about committing the audio.
#[derive(Debug)]
pub enum CommitAction {
    Done,
    Send(ClientEvent),
    DropConnection,
}

/// How long a buffer lasts, in nanoseconds.
pub open spec fn lasts_ns(buffer: Option<Buffer>) -> nat {
    match buffer {
        Some(buffer) => match buffer.duration {
            Some(duration) => duration.ns as nat,
            None => audio_length_ns(buffer.data@.len()),
        },
        None => 0,
    }
}

/// Whether an event is the one that adds the bytes to what was heard.
pub open spec fn appends(event: ClientEvent, data: Seq<u8>) -> bool {
    &&& event is InputAudioBufferAppend
    &&& event->InputAudioBufferAppend_0.event_id is None
    &&& event->InputAudioBufferAppend_0.audio@ == base64_encoded(data)
    &&& base64_decoded(event->InputAudioBufferAppend_0.audio@) == Some(data)
}

/// The message that carries a buffer's audio.
pub fn append_message(buffer: &Buffer) -> (r: ClientEvent)
    requires
        buffer.data@.len() <= isize::MAX / 4 * 3 - 3,
    ensures
        appends(r, buffer.data@),
{
    ClientEvent::from(
        InputAudioBufferAppend { event_id: None, audio: base64_encode(buffer.data.as_slice()) },
    )
}

/// How long a buffer has to wait before it is sent: until the time it is
/// for, and not at all if that has passed.
pub fn send_delay(running_time: Option<ClockTime>, now: ClockTime) -> (r: Option<ClockTime>)
    ensures
        r == match running_time {
            Some(time) if time.ns >= now.ns => Some(ClockTime { ns: (time.ns - now.ns) as u64 }),
            _ => None,
        },
{
    match running_time {
        Some(time) => time.checked_sub(now),
        None => None,
    }
}

/// What is answered where there is no connection for a buffer, or for the end
/// of the stream: the end needs none, and is simply reached; anything else is
/// a failure, with the words to report it.
pub fn without_connection(has_buffer: bool, cause: &str) -> (r: (FlowError, Option<ErrorMessage>))
    ensures
        if has_buffer {
            &&& r.0 == FlowError::Error
            &&& r.1 is Some
            &&& r.1->0@ == "Streaming failed: "@ + cause@
        } else {
            r.0 == FlowError::Eos && r.1 is None
        },
{
    if has_buffer {
        (FlowError::Error, Some(ErrorMessage::because("Streaming failed: ", cause)))
    } else {
        (FlowError::Eos, None)
    }
}

// Events on the input.

/// An event that reaches the input.
#[derive(Debug)]
pub enum SinkEvent {
    Eos,
    FlushStart,
    FlushStop,
    /// A segment in time.
    Segment { time: Option<ClockTime>, seqnum: u32 },
    /// A segment in another format, by the format's name.
    OtherSegment { format: String },
    Tag,
    Caps,
    Other,
}

/// What is to be done about an event on the input.
#[derive(Debug)]
pub enum SinkAction {
    /// Nothing more: it is answered.
    Accept,
    /// It is refused, for the reason given.
    Refuse(ErrorMessage),
    /// Handle the end of the stream like a buffer; the answer is whether that
    /// worked.
    Drain,
    /// Take the connection down, pass the event on, and stop the pads' tasks.
    Disconnect(Teardown),
    /// Pass the event on, and if that worked start the pads' tasks.
    Restart,
    /// Start the segment on every pad.
    StartSegment { time: Option<ClockTime>, seqnum: u32 },
    /// Treat it as any element does.
    Default,
}

/// Whether every task was stopped or started.
pub open spec fn all_worked(tasks: Seq<bool>) -> bool {
    forall|i: int| 0 <= i < tasks.len() ==> #[trigger] tasks[i]
}

/// The answer to the start or the stop of a flush: whether the event was
/// passed on, and the task of every pad was stopped or started.
pub fn flush_answer(forwarded: bool, tasks: &Vec<bool>) -> (r: bool)
    ensures
        r == (forwarded && all_worked(tasks@)),
{
    let mut all: bool = forwarded;
    let mut i: usize = 0;
    while i < tasks.len()
        invariant
            i <= tasks@.len(),
            all == (forwarded && forall|j: int| 0 <= j < i ==> #[trigger] tasks@[j]),
        decreases tasks@.len() - i,
    {
        if !tasks[i] {
            all = false;
        }
        i = i + 1;
    }
    all
}

/// The name of a requested pad.
pub open spec fn pad_name(serial: u32) -> Seq<char> {
    "realtime_src_"@ + decimal_text(serial as nat)
}

/// The element.
#[derive(Debug)]
pub struct RealtimeTransformer {
    pub settings: Settings,
    pub state: State,
}

impl RealtimeTransformer {
    /// The address to connect to.
    pub open spec fn address_view(self) -> Seq<char> {
        match self.settings.url {
            Some(url) => url@,
            None => "ws://0.0.0.0:9000"@,
        }
    }

    /// The headers that ask for a connection, given the address's authority
    /// and the key of the handshake.
    pub open spec fn asked_with(self, authority: Seq<char>, key: Seq<char>) -> Seq<
        (Seq<char>, Seq<char>),
    > {
        upgrade_headers_view(
            without_user(authority),
            key,
            self.settings.api_key->0@,
            opt_text(self.settings.agent_id),
        )
    }

    /// Whether `plan` is what the settings ask for, with the authority of the
    /// address and the key of the handshake.
    pub open spec fn planned(
        self,
        authority: Seq<char>,
        key: Seq<char>,
        plan: ConnectPlan,
    ) -> bool {
        &&& request_method(plan.request) == "GET"@
        &&& parsed_uri(self.address_view()) == Ok::<Seq<char>, Seq<char>>(
            request_uri(plan.request),
        )
        &&& values_ok(self.asked_with(authority, key))
        &&& request_headers(plan.request) == self.asked_with(authority, key).to_multiset()
        &&& configured(self.settings, plan.update)
        &&& plan.retry == Retry {
            attempts: 0,
            max_attempts: self.settings.reconnect_attempts,
            delay_ms: self.settings.reconnect_delay_ms,
        }
        &&& plan.timeout_ms == self.settings.connection_timeout_ms
    }

    /// Whether `result` is how a connection is begun, given the authority of
    /// the address and the key of the handshake: not at all where there is a
    /// connection, and else with a plan, or with the reason why there is none.
    pub open spec fn begun(
        self,
        authority: Result<Seq<char>, Seq<char>>,
        key: Seq<char>,
        result: Result<Option<ConnectPlan>, ConnectRefusal>,
    ) -> bool {
        if self.state.connected {
            result == Ok::<Option<ConnectPlan>, ConnectRefusal>(None)
        } else {
            match (authority, self.settings.api_key) {
                (Err(cause), _) => {
                    &&& result is Err
                    &&& result->Err_0 is Settings
                    &&& result->Err_0->Settings_0@ == "Failed to parse provided url: "@ + cause
                },
                (Ok(_), None) => {
                    &&& result is Err
                    &&& result->Err_0 is Settings
                    &&& result->Err_0->Settings_0@ == "An API key is required"@
                },
                (Ok(authority), Some(_)) => match result {
                    Ok(Some(plan)) => self.planned(authority, key, plan),
                    Ok(None) => false,
                    Err(ConnectRefusal::Settings(_)) => false,
                    Err(ConnectRefusal::Request(e)) => match parsed_uri(self.address_view()) {
                        Err(cause) => e@ == cause,
                        Ok(_) => {
                            &&& !values_ok(self.asked_with(authority, key))
                            &&& e@ == "failed to parse header value"@
                        },
                    },
                },
            }
        }
    }

    /// Whether a connection can be asked for: the address is one and can be
    /// the target of a request, there is an API key, and the host, the API key
    /// and the agent can stand in headers.
    pub open spec fn can_ask(self) -> bool {
        &&& url_authority(self.address_view()) is Ok
        &&& self.settings.api_key is Some
        &&& parsed_uri(self.address_view()) is Ok
        &&& header_value_ok(without_user(url_authority(self.address_view())->Ok_0))
        &&& header_value_ok(self.settings.api_key->0@)
        &&& self.settings.agent_id is Some ==> header_value_ok(self.settings.agent_id->0@)
    }

    /// Whatever the key of the handshake, the headers that ask for a connection
    /// can have their values exactly if the host, the API key and the agent
    /// can stand in headers.
    pub proof fn law_asked_with_header_values(self, authority: Seq<char>, key: Seq<char>)
        requires
            self.settings.api_key is Some,
            handshake_key(key),
        ensures
            values_ok(self.asked_with(authority, key)) <==> {
                &&& header_value_ok(without_user(authority))
                &&& header_value_ok(self.settings.api_key->0@)
                &&& self.settings.agent_id is Some ==> header_value_ok(self.settings.agent_id->0@)
            },
    {
        let all = self.asked_with(authority, key);
        let token = self.settings.api_key->0@;
        law_keys_are_header_values(key);
        lemma_bearer(token);
        reveal_strlit("websocket");
        reveal_strlit("keep-alive, upgrade");
        reveal_strlit("13");
        assert(all[0].1 == without_user(authority));
        assert(all[1].1 == "websocket"@);
        assert(all[2].1 == "keep-alive, upgrade"@);
        assert(all[3].1 == key);
        assert(all[4].1 == "13"@);
        assert(all[5].1 == "Bearer "@ + token);
        if self.settings.agent_id is Some {
            assert(all[6].1 == self.settings.agent_id->0@);
        }
    }

    /// A new element with the settings it comes with.
    pub fn new() -> (r: RealtimeTransformer)
        ensures
            r.state.fresh(),
            forall|p: Property| #[trigger] r.settings.held(p) == default_held(p),
    {
        RealtimeTransformer { settings: Settings::default(), state: State::default() }
    }

    /// The address to connect to.
    pub fn address(&self) -> (r: String)
        ensures
            r@ == self.address_view(),
    {
        match &self.settings.url {
            Some(url) => url.clone(),
            None => "ws://0.0.0.0:9000".to_string(),
        }
    }

    /// Begins a connection, with the authority of the address, or why the
    /// address is none, and the key of the handshake.
    pub fn begin_connection(&self, authority: Result<String, String>, key: String) -> (r: Result<
        Option<ConnectPlan>,
        ConnectRefusal,
    >)
        ensures
            self.begun(
                match authority {
                    Ok(a) => Ok(a@),
                    Err(e) => Err(e@),
                },
                key@,
                r,
            ),
    {
        if self.state.connected {
            return Ok(None);
        }
        let authority: String = match authority {
            Ok(authority) => authority,
            Err(e) => {
                return Err(
                    ConnectRefusal::Settings(
                        ErrorMessage::because("Failed to parse provided url: ", e.as_str()),
                    ),
                );
            },
        };
        let api_key: &String = match &self.settings.api_key {
            Some(api_key) => api_key,
            None => {
                return Err(ConnectRefusal::Settings(ErrorMessage::new("An API key is required")));
            },
        };
        let headers: Vec<Header> = upgrade_headers(
            host_and_port(authority.as_str()),
            key,
            api_key.as_str(),
            &self.settings.agent_id,
        );
        assert(headers@.len() == header_views(headers@).len());
        match build_request(self.address().as_str(), &headers) {
            Ok(request) => Ok(
                Some(
                    ConnectPlan {
                        request,
                        update: session_update(&self.settings),
                        retry: Retry::new(
                            self.settings.reconnect_attempts,
                            self.settings.reconnect_delay_ms,
                        ),
                        timeout_ms: self.settings.connection_timeout_ms,
                    },
                ),
            ),
            Err(e) => Err(ConnectRefusal::Request(e)),
        }
    }

    /// Begins a connection if there is none. The key of the handshake is a new
    /// one each time.
    pub fn ensure_connection(&self) -> (r: Result<Option<ConnectPlan>, ConnectRefusal>)
        ensures
            exists|key: Seq<char>|
                #[trigger] self.begun(url_authority(self.address_view()), key, r)
                    && handshake_key(key),
            r is Ok <==> self.state.connected || self.can_ask(),
            r is Ok ==> (r->Ok_0 is Some <==> !self.state.connected),
    {
        let authority: Result<String, String> = parse_authority(self.address().as_str());
        let key: String = generate_key();
        let ghost drawn = key@;
        let r = self.begin_connection(authority, key);
        assert(self.begun(url_authority(self.address_view()), drawn, r));
        proof {
            if url_authority(self.address_view()) is Ok && self.settings.api_key is Some {
                self.law_asked_with_header_values(
                    url_authority(self.address_view())->Ok_0,
                    drawn,
                );
            }
        }
        r
    }

    /// Takes note of how the attempt to connect ended. Once it has worked, the
    /// element is connected and receives messages.
    pub fn connection_ended(&mut self, outcome: ConnectOutcome) -> (r: Result<(), ErrorMessage>)
        ensures
            final(self).settings == old(self).settings,
            match outcome {
                ConnectOutcome::Connected => {
                    &&& r is Ok
                    &&& final(self).state == State {
                        connected: true,
                        receiving: true,
                        ..old(self).state
                    }
                },
                ConnectOutcome::Failed(cause) => {
                    &&& r is Err
                    &&& r->Err_0@ == "Connection failed: "@ + cause@
                    &&& final(self).state == old(self).state
                },
                ConnectOutcome::Lost => {
                    &&& r is Err
                    &&& r->Err_0@ == "Connection task failed"@
                    &&& final(self).state == old(self).state
                },
            },
    {
        match outcome {
            ConnectOutcome::Connected => {
                self.state.connected = true;
                self.state.receiving = true;
                Ok(())
            },
            ConnectOutcome::Failed(cause) => Err(
                ErrorMessage::because("Connection failed: ", cause.as_str()),
            ),
            ConnectOutcome::Lost => Err(ErrorMessage::new("Connection task failed")),
        }
    }

    /// Forgets the connection, the audio sent on it and the pads. What was
    /// running on it has to be stopped; a timer that commits the audio is not
    /// stopped.
    pub fn disconnect(&mut self) -> (r: Teardown)
        ensures
            final(self).settings == old(self).settings,
            final(self).state.fresh(),
            r.stop_receiving == old(self).state.receiving,
            r.stop_sending == old(self).state.sending,
    {
        let teardown = Teardown {
            stop_receiving: self.state.receiving,
            stop_sending: self.state.sending,
        };
        self.state = State::default();
        teardown
    }

    /// Whether a buffer is taken at all: it has to say what time it is for.
    pub fn sink_chain(&self, buffer: &Buffer) -> (r: Result<(), FlowError>)
        ensures
            r == if buffer.pts is Some {
                Ok::<(), FlowError>(())
            } else {
                Err::<(), FlowError>(FlowError::Error)
            },
    {
        if buffer.pts.is_none() {
            Err(FlowError::Error)
        } else {
            Ok(())
        }
    }

    /// Takes note that a buffer is on its way.
    pub fn sending_started(&mut self)
        ensures
            final(self).settings == old(self).settings,
            final(self).state == (State { sending: true, ..old(self).state }),
    {
        self.state.sending = true;
    }

    /// Whether the audio is committed after a while of silence: the server
    /// does not tell turns by itself, and more than the least amount was sent.
    pub open spec fn commits(self) -> bool {
        &&& !self.settings.server_vad
        &&& self.state.acc_audio_duration.ns > self.settings.vad_min_audio_duration.ns
    }

    /// Whether a buffer's audio can be counted on top of what was sent.
    pub open spec fn can_count(self, buffer: Option<Buffer>) -> bool {
        self.state.acc_audio_duration.ns + lasts_ns(buffer) <= u64::MAX
    }

    /// Whether a buffer's audio can be counted on top of what was sent.
    pub fn counts(&self, buffer: &Option<Buffer>) -> (r: bool)
        ensures
            r == self.can_count(*buffer),
    {
        let left: u64 = u64::MAX - self.state.acc_audio_duration.ns;
        match buffer {
            Some(buffer) => match buffer.duration {
                Some(duration) => duration.ns <= left,
                None => {
                    let ms: u64 = calculate_audio_length_ms(buffer.data.len());
                    ms <= left / NS_PER_MS
                },
            },
            None => true,
        }
    }

    /// Whether `after` is what `before` becomes, and `result` what follows, when
    /// a buffer was to be sent.
    pub open spec fn audio_sent(
        before: RealtimeTransformer,
        after: RealtimeTransformer,
        buffer: Option<Buffer>,
        outcome: SendOutcome,
        result: Result<SendPlan, FlowError>,
    ) -> bool {
        &&& after.settings == before.settings
        &&& match outcome {
            SendOutcome::NoConnection => {
                &&& result == Err::<SendPlan, FlowError>(FlowError::Error)
                &&& after.state == before.state
            },
            SendOutcome::Failed => {
                &&& result == Err::<SendPlan, FlowError>(FlowError::Error)
                &&& after.state == State { connected: false, ..before.state }
            },
            _ => {
                &&& result is Ok
                &&& result->Ok_0.disarm == before.state.commit_armed
                &&& result->Ok_0.arm == if after.commits() {
                    Some(before.settings.vad_silence_duration_ms as u64)
                } else {
                    None
                }
                &&& after.state.acc_audio_duration.ns == before.state.acc_audio_duration.ns
                    + if outcome == SendOutcome::Sent {
                    lasts_ns(buffer)
                } else {
                    0
                }
                &&& after.state == State {
                    acc_audio_duration: after.state.acc_audio_duration,
                    commit_armed: after.commits(),
                    ..before.state
                }
            },
        }
    }

    /// Takes note of what became of a buffer. What was sent counts towards the
    /// next commit, which comes a while of silence after the last buffer:
    /// each one stops the timer and starts it anew. A failure leaves the
    /// element without a connection.
    pub fn sync_and_send(&mut self, buffer: &Option<Buffer>, outcome: SendOutcome) -> (r: Result<
        SendPlan,
        FlowError,
    >)
        requires
            outcome == SendOutcome::Sent ==> old(self).can_count(*buffer),
        ensures
            Self::audio_sent(*old(self), *final(self), *buffer, outcome, r),
    {
        let mut lasts: ClockTime = ClockTime::zero();
        match outcome {
            SendOutcome::NoConnection => {
                return Err(FlowError::Error);
            },
            SendOutcome::Failed => {
                self.state.connected = false;
                return Err(FlowError::Error);
            },
            SendOutcome::NoBuffer => {},
            SendOutcome::Sent => {
                if let Some(buffer) = buffer {
                    lasts = match buffer.duration {
                        Some(duration) => duration,
                        None => {
                            proof {
                                lemma_audio_length_ms(buffer.data@.len());
                            }
                            ClockTime::from_mseconds(calculate_audio_length_ms(buffer.data.len()))
                        },
                    };
                }
            },
        }
        self.state.acc_audio_duration = self.state.acc_audio_duration.plus(lasts);
        let disarm: bool = self.state.commit_armed;
        let commits: bool = !self.settings.server_vad && self.state.acc_audio_duration.ns
            > self.settings.vad_min_audio_duration.ns;
        self.state.commit_armed = commits;
        let arm: Option<u64> = if commits {
            Some(self.settings.vad_silence_duration_ms as u64)
        } else {
            None
        };
        Ok(SendPlan { disarm, arm })
    }

    /// What is to be done about committing the audio: once the time is over,
    /// commit it, then ask for a response. A failure leaves the element
    /// without a connection.
    pub fn commit_audio(&mut self, event: CommitEvent) -> (r: CommitAction)
        ensures
            final(self).settings == old(self).settings,
            match event {
                CommitEvent::Due { has_connection } => {
                    &&& final(self).state == old(self).state
                    &&& r == if has_connection {
                        CommitAction::Send(
                            ClientEvent::InputAudioBufferCommit(
                                InputAudioBufferCommit { event_id: None },
                            ),
                        )
                    } else {
                        CommitAction::Done
                    }
                },
                CommitEvent::Committed { sent: true } => {
                    &&& final(self).state == old(self).state
                    &&& r == CommitAction::Send(
                        ClientEvent::ResponseCreate(ResponseCreate { event_id: None }),
                    )
                },
                CommitEvent::Asked { sent: true } => {
                    &&& final(self).state == old(self).state
                    &&& r == CommitAction::Done
                },
                _ => {
                    &&& final(self).state == State { connected: false, ..old(self).state }
                    &&& r == CommitAction::DropConnection
                },
            },
    {
        match event {
            CommitEvent::Due { has_connection: true } => CommitAction::Send(
                ClientEvent::from(InputAudioBufferCommit { event_id: None }),
            ),
            CommitEvent::Due { has_connection: false } => CommitAction::Done,
            CommitEvent::Committed { sent: true } => CommitAction::Send(
                ClientEvent::from(ResponseCreate { event_id: None }),
            ),
            CommitEvent::Asked { sent: true } => CommitAction::Done,
            _ => {
                self.state.connected = false;
                CommitAction::DropConnection
            },
        }
    }

    /// Takes note that the server has committed the audio: what was sent so
    /// far no longer counts.
    pub fn forget_heard_audio(&mut self)
        ensures
            final(self).settings == old(self).settings,
            final(self).state == (State {
                acc_audio_duration: ClockTime { ns: 0 },
                ..old(self).state
            }),
    {
        self.state.acc_audio_duration = ClockTime::zero();
    }

    /// What is to be done about an event on the input. A flush takes the
    /// connection down.
    pub fn sink_event(&mut self, event: SinkEvent) -> (r: SinkAction)
        ensures
            final(self).settings == old(self).settings,
            if event is FlushStart {
                &&& final(self).state.fresh()
                &&& r == SinkAction::Disconnect(
                    Teardown {
                        stop_receiving: old(self).state.receiving,
                        stop_sending: old(self).state.sending,
                    },
                )
            } else {
                final(self).state == old(self).state
            },
            match event {
                SinkEvent::Eos => r == SinkAction::Drain,
                SinkEvent::FlushStart => true,
                SinkEvent::FlushStop => r == SinkAction::Restart,
                SinkEvent::Segment { time, seqnum } => r == (SinkAction::StartSegment {
                    time,
                    seqnum,
                }),
                SinkEvent::OtherSegment { format } => {
                    &&& r is Refuse
                    &&& r->Refuse_0@ == "Only Time segments supported, got "@ + format@
                },
                SinkEvent::Tag => r == SinkAction::Accept,
                SinkEvent::Caps => r == SinkAction::Accept,
                SinkEvent::Other => r == SinkAction::Default,
            },
    {
        match event {
            SinkEvent::Eos => SinkAction::Drain,
            SinkEvent::FlushStart => SinkAction::Disconnect(self.disconnect()),
            SinkEvent::FlushStop => SinkAction::Restart,
            SinkEvent::Segment { time, seqnum } => SinkAction::StartSegment { time, seqnum },
            SinkEvent::OtherSegment { format } => SinkAction::Refuse(
                ErrorMessage::because("Only Time segments supported, got ", format.as_str()),
            ),
            SinkEvent::Tag => SinkAction::Accept,
            SinkEvent::Caps => SinkAction::Accept,
            SinkEvent::Other => SinkAction::Default,
        }
    }

    /// Takes in the pad that the element always has.
    pub fn add_pad(&mut self, pad: u64)
        ensures
            final(self).settings == old(self).settings,
            final(self).state.srcpads@ == old(self).state.srcpads@.insert(pad),
            final(self).state == (State {
                srcpads: final(self).state.srcpads,
                ..old(self).state
            }),
    {
        broadcast use vstd::std_specs::btree::group_btree_axioms;

        self.state.srcpads.insert(pad);
    }

    /// Takes in a pad that was requested, and names it.
    pub fn request_new_pad(&mut self, pad: u64) -> (r: String)
        requires
            old(self).state.pad_serial < u32::MAX,
        ensures
            r@ == pad_name(old(self).state.pad_serial),
            final(self).settings == old(self).settings,
            final(self).state.srcpads@ == old(self).state.srcpads@.insert(pad),
            final(self).state == (State {
                srcpads: final(self).state.srcpads,
                pad_serial: (old(self).state.pad_serial + 1) as u32,
                ..old(self).state
            }),
    {
        let mut name: String = "realtime_src_".to_string();
        name.append(decimal(self.state.pad_serial as u64).as_str());
        self.add_pad(pad);
        self.state.pad_serial = self.state.pad_serial + 1;
        name
    }

    /// What is to be taken down before a change of state: the connection, when
    /// the element leaves the paused state.
    pub fn change_state(&mut self, transition: StateChange) -> (r: Option<Teardown>)
        ensures
            final(self).settings == old(self).settings,
            if transition == StateChange::PausedToReady {
                &&& final(self).state.fresh()
                &&& r == Some(
                    Teardown {
                        stop_receiving: old(self).state.receiving,
                        stop_sending: old(self).state.sending,
                    },
                )
            } else {
                final(self).state == old(self).state && r is None
            },
    {
        if transition == StateChange::PausedToReady {
            Some(self.disconnect())
        } else {
            None
        }
    }
}

/// How long buffers last together, in nanoseconds.
pub open spec fn total_ns(buffers: Seq<Option<Buffer>>) -> nat
    decreases buffers.len(),
{
    if buffers.len() == 0 {
        0
    } else {
        total_ns(buffers.drop_last()) + lasts_ns(buffers.last())
    }
}

/// From the time that what was heard no longer counts, buffers that are sent
/// add up, and the last of them starts the timer that commits them exactly if
/// the server does not tell turns by itself and they last longer, together,
/// than the least amount.
pub proof fn law_commit_needs_enough_audio(
    steps: Seq<RealtimeTransformer>,
    buffers: Seq<Option<Buffer>>,
    results: Seq<Result<SendPlan, FlowError>>,
)
    requires
        buffers.len() > 0,
        steps.len() == buffers.len() + 1,
        results.len() == buffers.len(),
        steps[0].state.acc_audio_duration.ns == 0,
        forall|i: int|
            0 <= i < buffers.len() ==> #[trigger] RealtimeTransformer::audio_sent(
                steps[i],
                steps[i + 1],
                buffers[i],
                SendOutcome::Sent,
                results[i],
            ),
    ensures
        steps.last().state.acc_audio_duration.ns == total_ns(buffers),
        steps.last().settings == steps[0].settings,
        results.last() is Ok,
        results.last()->Ok_0.arm is Some <==> !steps[0].settings.server_vad && total_ns(buffers)
            > steps[0].settings.vad_min_audio_duration.ns,
    decreases buffers.len(),
{
    let last = buffers.len() - 1;
    assert(RealtimeTransformer::audio_sent(
        steps[last],
        steps[last + 1],
        buffers[last],
        SendOutcome::Sent,
        results[last],
    ));
    if last > 0 {
        let fewer = steps.drop_last();
        let less = buffers.drop_last();
        let earlier = results.drop_last();
        assert forall|i: int| 0 <= i < less.len() implies #[trigger]
            RealtimeTransformer::audio_sent(
                fewer[i],
                fewer[i + 1],
                less[i],
                SendOutcome::Sent,
                earlier[i],
            ) by {
            assert(RealtimeTransformer::audio_sent(
                steps[i],
                steps[i + 1],
                buffers[i],
                SendOutcome::Sent,
                results[i],
            ));
        }
        law_commit_needs_enough_audio(fewer, less, earlier);
        assert(fewer.last() == steps[last]);
    } else {
        assert(total_ns(buffers.drop_last()) == 0);
    }
    assert(steps.last() == steps[last + 1]);
    assert(total_ns(buffers) == total_ns(buffers.drop_last()) + lasts_ns(buffers[last]));
}

/// No two pads that were requested under different numbers share a name.
pub proof fn law_pad_names_distinct(a: u32, b: u32)
    requires
        a != b,
    ensures
        pad_name(a) != pad_name(b),
{
    if pad_name(a) == pad_name(b) {
        let prefix = "realtime_src_"@;
        assert(pad_name(a).skip(prefix.len() as int) =~= decimal_text(a as nat));
        assert(pad_name(b).skip(prefix.len() as int) =~= decimal_text(b as nat));
        law_decimal_injective(a as nat, b as nat);
    }
}

/// What a connection is asked for with: the host, the upgrade, the key of the
/// handshake, the API key, and the agent if there is one.
pub proof fn law_upgrade_headers(
    host: Seq<char>,
    key: Seq<char>,
    api_key: Seq<char>,
    agent_id: Option<Seq<char>>,
)
    ensures
        ({
            let headers = upgrade_headers_view(host, key, api_key, agent_id);
            &&& headers.len() == if agent_id is Some {
                7nat
            } else {
                6
            }
            &&& headers.contains(("host"@, host))
            &&& headers.contains(("upgrade"@, "websocket"@))
            &&& headers.contains(("connection"@, "keep-alive, upgrade"@))
            &&& headers.contains(("sec-websocket-key"@, key))
            &&& headers.contains(("sec-websocket-version"@, "13"@))
            &&& headers.contains(("authorization"@, "Bearer "@ + api_key))
            &&& agent_id is Some ==> headers.contains(("x-ticos-agent-id"@, agent_id->0))
        }),
{
    let headers = upgrade_headers_view(host, key, api_key, agent_id);
    assert(headers.contains(headers[0]));
    assert(headers.contains(headers[1]));
    assert(headers.contains(headers[2]));
    assert(headers.contains(headers[3]));
    assert(headers.contains(headers[4]));
    assert(headers.contains(headers[5]));
    if agent_id is Some {
        assert(headers.contains(headers[6]));
    }
}

/// A connection is begun only where there is none. It is asked for at the
/// address, or at `ws://0.0.0.0:9000` where none is set; on the host and port
/// of the address without its user; with the API key and the agent of the
/// settings; and tried as often, with such pauses and such patience as they
/// say. Without an address that can be read, or without an API key, the reason
/// is told.
pub proof fn law_connection_is_begun(
    element: RealtimeTransformer,
    user: Seq<char>,
    host: Seq<char>,
    key: Seq<char>,
    result: Result<Option<ConnectPlan>, ConnectRefusal>,
)
    requires
        !user.contains('@'),
        element.begun(Ok(user.push('@') + host), key, result),
    ensures
        element.address_view() == if element.settings.url is Some {
            element.settings.url->0@
        } else {
            "ws://0.0.0.0:9000"@
        },
        element.state.connected <==> result is Ok && result->Ok_0 is None,
        !element.state.connected && element.settings.api_key is None ==> result is Err
            && result->Err_0 is Settings && result->Err_0->Settings_0@ == "An API key is required"@,
        !element.state.connected && element.settings.api_key is Some && parsed_uri(
            element.address_view(),
        ) is Err ==> result is Err && result->Err_0 is Request && result->Err_0->Request_0@
            == parsed_uri(element.address_view())->Err_0,
        result is Ok && result->Ok_0 is Some ==> {
            let plan = result->Ok_0->0;
            &&& request_method(plan.request) == "GET"@
            &&& parsed_uri(element.address_view()) == Ok::<Seq<char>, Seq<char>>(
                request_uri(plan.request),
            )
            &&& request_headers(plan.request) == upgrade_headers_view(
                host,
                key,
                element.settings.api_key->0@,
                if element.settings.agent_id is Some {
                    Some(element.settings.agent_id->0@)
                } else {
                    None
                },
            ).to_multiset()
            &&& configured(element.settings, plan.update)
            &&& plan.retry.attempts == 0
            &&& plan.retry.max_attempts == element.settings.reconnect_attempts
            &&& plan.retry.delay_ms == element.settings.reconnect_delay_ms
            &&& plan.timeout_ms == element.settings.connection_timeout_ms
        },
{
    law_user_is_cut_off(user, host);
}

/// An address that cannot be read leaves nothing to ask for, and says why.
pub proof fn law_unreadable_address(
    element: RealtimeTransformer,
    cause: Seq<char>,
    key: Seq<char>,
    result: Result<Option<ConnectPlan>, ConnectRefusal>,
)
    requires
        !element.state.connected,
        element.begun(Err(cause), key, result),
    ensures
        result is Err,
        result->Err_0 is Settings,
        result->Err_0->Settings_0@ == "Failed to parse provided url: "@ + cause,
{
}

/// A buffer lasts as long as it says, and otherwise a millisecond for every 48
/// bytes.
pub proof fn law_buffers_last(buffer: Buffer)
    ensures
        buffer.duration is Some ==> lasts_ns(Some(buffer)) == buffer.duration->0.ns,
        buffer.duration is None ==> lasts_ns(Some(buffer)) == (buffer.data@.len() / 48) * 1_000_000,
        lasts_ns(None) == 0,
{
    lemma_audio_length_ms(buffer.data@.len());
}

/// What became of a buffer changes only what it must. One that was sent counts
/// with the time it lasts, and nothing counts otherwise; only a failure costs
/// the connection. The timer runs afterwards exactly if turns are not told by
/// the server and more was sent than the least amount, and it was stopped if it
/// ran before.
pub proof fn law_sent_audio_counts(
    before: RealtimeTransformer,
    after: RealtimeTransformer,
    buffer: Option<Buffer>,
    outcome: SendOutcome,
    result: Result<SendPlan, FlowError>,
)
    requires
        RealtimeTransformer::audio_sent(before, after, buffer, outcome, result),
    ensures
        after.settings == before.settings,
        after.state.receiving == before.state.receiving,
        after.state.sending == before.state.sending,
        after.state.pad_serial == before.state.pad_serial,
        after.state.srcpads == before.state.srcpads,
        result is Ok <==> outcome == SendOutcome::Sent || outcome == SendOutcome::NoBuffer,
        result is Err ==> result->Err_0 == FlowError::Error,
        after.state.connected == (before.state.connected && outcome != SendOutcome::Failed),
        outcome == SendOutcome::Sent ==> after.state.acc_audio_duration.ns
            == before.state.acc_audio_duration.ns + lasts_ns(buffer),
        outcome != SendOutcome::Sent ==> after.state.acc_audio_duration.ns
            == before.state.acc_audio_duration.ns,
        result is Ok ==> {
            let wanted = !before.settings.server_vad && after.state.acc_audio_duration.ns
                > before.settings.vad_min_audio_duration.ns;
            &&& result->Ok_0.disarm == before.state.commit_armed
            &&& result->Ok_0.arm is Some <==> wanted
            &&& wanted ==> result->Ok_0.arm->0 == before.settings.vad_silence_duration_ms
            &&& after.state.commit_armed == wanted
        },
        result is Err ==> after.state.commit_armed == before.state.commit_armed,
{
}

/// The message that carries audio can be turned into the audio again.
pub proof fn law_appended_audio_is_read_back(event: ClientEvent, data: Seq<u8>)
    requires
        appends(event, data),
    ensures
        event is InputAudioBufferAppend,
        event->InputAudioBufferAppend_0.event_id is None,
        base64_decoded(event->InputAudioBufferAppend_0.audio@) == Some(data),
{
}

/// An element that was just made, or has disconnected, has no connection, runs
/// nothing, has counted no audio and knows no pads.
pub proof fn law_fresh_elements(state: State)
    ensures
        state.fresh() <==> {
            &&& !state.connected
            &&& !state.receiving
            &&& !state.sending
            &&& !state.commit_armed
            &&& state.acc_audio_duration.ns == 0
            &&& state.pad_serial == 0
            &&& forall|pad: u64| !(#[trigger] state.srcpads@.contains(pad))
        },
{
    if !state.connected && !state.receiving && !state.sending && !state.commit_armed
        && state.acc_audio_duration.ns == 0 && state.pad_serial == 0 && (forall|pad: u64|
        !(#[trigger] state.srcpads@.contains(pad))) {
        assert(state.srcpads@ =~= Set::<u64>::empty());
    }
}

/// A requested pad's name ends in the number that it was requested under.
pub proof fn law_pad_names_hold_their_number(serial: u32)
    ensures
        pad_name(serial).take("realtime_src_"@.len() as int) == "realtime_src_"@,
        read_decimal(pad_name(serial).skip("realtime_src_"@.len() as int)) == serial,
{
    let prefix = "realtime_src_"@;
    assert(pad_name(serial).take(prefix.len() as int) =~= prefix);
    assert(pad_name(serial).skip(prefix.len() as int) =~= decimal_text(serial as nat));
    law_decimal_is_read_back(serial as nat);
}

/// A buffer that waits is sent at the time it is for, and no buffer waits whose
/// time has passed.
pub proof fn law_buffers_are_sent_in_time(
    running_time: ClockTime,
    now: ClockTime,
    delay: Option<ClockTime>,
)
    requires
        call_ensures(send_delay, (Some(running_time), now), delay),
    ensures
        delay is Some <==> now.ns <= running_time.ns,
        delay is Some ==> now.ns + delay->0.ns == running_time.ns,
{
}

/// Disconnecting leaves an element as if it was just made, but for its
/// settings, and has everything stopped that was running.
pub proof fn law_disconnecting(element: &mut RealtimeTransformer, teardown: Teardown)
    requires
        call_ensures(RealtimeTransformer::disconnect, (element,), teardown),
    ensures
        final(element).settings == old(element).settings,
        !final(element).state.connected,
        !final(element).state.receiving,
        !final(element).state.sending,
        !final(element).state.commit_armed,
        final(element).state.acc_audio_duration.ns == 0,
        final(element).state.pad_serial == 0,
        forall|pad: u64| !(#[trigger] final(element).state.srcpads@.contains(pad)),
        teardown.stop_receiving == old(element).state.receiving,
        teardown.stop_sending == old(element).state.sending,
{
}

/// Only an attempt that worked connects an element; any other leaves it as it
/// was and says why.
pub proof fn law_attempt_ends(
    element: &mut RealtimeTransformer,
    outcome: ConnectOutcome,
    result: Result<(), ErrorMessage>,
)
    requires
        call_ensures(RealtimeTransformer::connection_ended, (element, outcome), result),
    ensures
        result is Ok <==> outcome is Connected,
        result is Ok ==> final(element).state.connected && final(element).state.receiving,
        result is Err ==> final(element).state == old(element).state,
        outcome is Failed ==> result->Err_0@ == "Connection failed: "@ + outcome->Failed_0@,
        outcome is Lost ==> result->Err_0@ == "Connection task failed"@,
        final(element).settings == old(element).settings,
        final(element).state.acc_audio_duration == old(element).state.acc_audio_duration,
        final(element).state.srcpads == old(element).state.srcpads,
        final(element).state.pad_serial == old(element).state.pad_serial,
{
}

/// A connection can be asked for, and is, exactly if there is an address that
/// can be read and be a target, an API key, and nothing in host, API key or
/// agent that headers do not take; with a connection there is nothing to ask.
pub proof fn law_connection_is_owed(
    element: &RealtimeTransformer,
    user: Seq<char>,
    host: Seq<char>,
    result: Result<Option<ConnectPlan>, ConnectRefusal>,
)
    requires
        call_ensures(RealtimeTransformer::ensure_connection, (element,), result),
        !user.contains('@'),
        url_authority(
            if element.settings.url is Some {
                element.settings.url->0@
            } else {
                "ws://0.0.0.0:9000"@
            },
        ) == Ok::<Seq<char>, Seq<char>>(user.push('@') + host),
        !element.state.connected,
    ensures
        result is Ok <==> {
            &&& element.settings.api_key is Some
            &&& parsed_uri(
                if element.settings.url is Some {
                    element.settings.url->0@
                } else {
                    "ws://0.0.0.0:9000"@
                },
            ) is Ok
            &&& header_value_ok(host)
            &&& header_value_ok(element.settings.api_key->0@)
            &&& element.settings.agent_id is Some ==> header_value_ok(
                element.settings.agent_id->0@,
            )
        },
        result is Ok ==> result->Ok_0 is Some,
{
    law_user_is_cut_off(user, host);
}

/// The end of the stream needs no connection; a buffer without one fails.
pub proof fn law_buffers_need_a_connection(
    has_buffer: bool,
    cause: &str,
    answer: (FlowError, Option<ErrorMessage>),
)
    requires
        call_ensures(without_connection, (has_buffer, cause), answer),
    ensures
        answer.0 == FlowError::Eos <==> !has_buffer,
        answer.1 is Some <==> has_buffer,
        has_buffer ==> answer.1->0@ == "Streaming failed: "@ + cause@,
{
}

/// A buffer is taken exactly if it says what time it is for.
pub proof fn law_buffers_need_a_time(
    element: &RealtimeTransformer,
    buffer: &Buffer,
    result: Result<(), FlowError>,
)
    requires
        call_ensures(RealtimeTransformer::sink_chain, (element, buffer), result),
    ensures
        result is Ok <==> buffer.pts is Some,
        result is Err ==> result->Err_0 == FlowError::Error,
{
}

/// Committing goes in two messages, first the commit and then the request for a
/// response; without a connection nothing is sent, and a message that cannot be
/// sent costs the connection and nothing else.
pub proof fn law_committing(
    element: &mut RealtimeTransformer,
    event: CommitEvent,
    action: CommitAction,
)
    requires
        call_ensures(RealtimeTransformer::commit_audio, (element, event), action),
    ensures
        action is Send && action->Send_0 is InputAudioBufferCommit <==> event == (CommitEvent::Due {
            has_connection: true,
        }),
        action is Send && action->Send_0 is ResponseCreate <==> event == (CommitEvent::Committed {
            sent: true,
        }),
        action is Send ==> action->Send_0 is InputAudioBufferCommit || action->Send_0
            is ResponseCreate,
        action is DropConnection <==> event == (CommitEvent::Committed { sent: false }) || event
            == (CommitEvent::Asked { sent: false }),
        final(element).state.connected == (old(element).state.connected && !(action
            is DropConnection)),
        final(element).state.acc_audio_duration == old(element).state.acc_audio_duration,
        final(element).state.commit_armed == old(element).state.commit_armed,
        final(element).state.srcpads == old(element).state.srcpads,
        final(element).settings == old(element).settings,
{
}

/// What counts towards the next commit is forgotten once it was committed, and
/// nothing else is.
pub proof fn law_forgetting(element: &mut RealtimeTransformer)
    requires
        call_ensures(RealtimeTransformer::forget_heard_audio, (element,), ()),
    ensures
        final(element).state.acc_audio_duration.ns == 0,
        final(element).state.connected == old(element).state.connected,
        final(element).state.commit_armed == old(element).state.commit_armed,
        final(element).state.srcpads == old(element).state.srcpads,
        final(element).settings == old(element).settings,
{
}

/// Of the events on the input only the start of a flush touches the element: it
/// disconnects it. A segment is started as it came, tags and caps are taken,
/// only segments in time are.
pub proof fn law_input_events(
    element: &mut RealtimeTransformer,
    event: SinkEvent,
    action: SinkAction,
)
    requires
        call_ensures(RealtimeTransformer::sink_event, (element, event), action),
    ensures
        final(element).settings == old(element).settings,
        !(event is FlushStart) ==> final(element).state == old(element).state,
        event is FlushStart ==> !final(element).state.connected && !final(element).state.receiving
            && final(element).state.acc_audio_duration.ns == 0,
        action is Disconnect <==> event is FlushStart,
        action is Disconnect ==> action->Disconnect_0.stop_receiving
            == old(element).state.receiving && action->Disconnect_0.stop_sending
                == old(element).state.sending,
        action is Drain <==> event is Eos,
        action is Restart <==> event is FlushStop,
        action is StartSegment <==> event is Segment,
        action is StartSegment ==> action->time == event->time && action->seqnum == event->seqnum,
        action is Refuse <==> event is OtherSegment,
        action is Refuse ==> action->Refuse_0@ == "Only Time segments supported, got "@
            + event->format@,
        action is Accept <==> event is Tag || event is Caps,
        action is Default <==> event is Other,
{
}

/// The answer to a flush is yes exactly if nothing about it failed.
pub proof fn law_flush_answers(forwarded: bool, tasks: &Vec<bool>, answer: bool)
    requires
        call_ensures(flush_answer, (forwarded, tasks), answer),
    ensures
        answer <==> forwarded && !tasks@.contains(false),
{
    if tasks@.contains(false) {
        let i = choose|i: int| 0 <= i < tasks@.len() && tasks@[i] == false;
        assert(!tasks@[i]);
    } else if forwarded {
        assert forall|i: int| 0 <= i < tasks@.len() implies #[trigger] tasks@[i] by {
            if !tasks@[i] {
                assert(tasks@[i] == false);
                assert(tasks@.contains(false));
            }
        }
    }
}

/// A requested pad is known from then on, beside those known before, and the
/// next one gets the next number.
pub proof fn law_requested_pads(element: &mut RealtimeTransformer, pad: u64, name: String)
    requires
        old(element).state.pad_serial < u32::MAX,
        call_ensures(RealtimeTransformer::request_new_pad, (element, pad), name),
    ensures
        forall|other: u64| #[trigger]
            final(element).state.srcpads@.contains(other) <==> other
                == pad || old(element).state.srcpads@.contains(other),
        final(element).state.pad_serial == old(element).state.pad_serial + 1,
        name@.take("realtime_src_"@.len() as int) == "realtime_src_"@,
        read_decimal(name@.skip("realtime_src_"@.len() as int)) == old(element).state.pad_serial,
        final(element).state.connected == old(element).state.connected,
{
    law_pad_names_hold_their_number(old(element).state.pad_serial);
}

/// An element disconnects when it leaves the paused state for the ready state,
/// and on no other change.
pub proof fn law_state_changes(
    element: &mut RealtimeTransformer,
    transition: StateChange,
    teardown: Option<Teardown>,
)
    requires
        call_ensures(RealtimeTransformer::change_state, (element, transition), teardown),
    ensures
        teardown is Some <==> transition is PausedToReady,
        teardown is Some ==> !final(element).state.connected && teardown->0.stop_receiving
            == old(element).state.receiving && teardown->0.stop_sending
                == old(element).state.sending,
        teardown is None ==> final(element).state == old(element).state,
        final(element).settings == old(element).settings,
{
}

/// What is handed on for a buffer that was to be sent follows from the element,
/// the buffer and what became of it; and its message holds its bytes.
pub proof fn law_sending(
    element: &mut RealtimeTransformer,
    buffer: &Option<Buffer>,
    outcome: SendOutcome,
    result: Result<SendPlan, FlowError>,
)
    requires
        outcome == SendOutcome::Sent ==> old(element).can_count(*buffer),
        call_ensures(RealtimeTransformer::sync_and_send, (element, buffer, outcome), result),
    ensures
        result is Ok <==> outcome is Sent || outcome is NoBuffer,
        final(element).state.connected == (old(element).state.connected && !(outcome is Failed)),
        outcome is Sent && *buffer is Some && buffer->0.duration is Some
            ==> final(element).state.acc_audio_duration.ns
                == old(element).state.acc_audio_duration.ns
            + buffer->0.duration->0.ns,
        outcome is Sent && *buffer is Some && buffer->0.duration is None
            ==> final(element).state.acc_audio_duration.ns
                == old(element).state.acc_audio_duration.ns + (
        buffer->0.data@.len() / 48) * 1_000_000,
        !(outcome is Sent) ==> final(element).state.acc_audio_duration
            == old(element).state.acc_audio_duration,
        result is Ok ==> (result->Ok_0.arm is Some <==> !old(element).settings.server_vad
            && final(element).state.acc_audio_duration.ns
                > old(element).settings.vad_min_audio_duration.ns),
        result is Ok && result->Ok_0.arm is Some ==> result->Ok_0.arm->0
            == old(element).settings.vad_silence_duration_ms,
        result is Ok ==> result->Ok_0.disarm == old(element).state.commit_armed,
        final(element).settings == old(element).settings,
{
    if *buffer is Some {
        law_buffers_last(buffer->0);
    }
    law_sent_audio_counts(*old(element), *final(element), *buffer, outcome, result);
}

/// Audio can be counted as long as the sum can be told in 64 bits.
pub proof fn law_countable_audio(
    element: &RealtimeTransformer,
    buffer: &Option<Buffer>,
    countable: bool,
)
    requires
        call_ensures(RealtimeTransformer::counts, (element, buffer), countable),
    ensures
        countable == element.can_count(*buffer),
        *buffer is None ==> countable,
        *buffer is Some && buffer->0.duration is Some ==> (countable
            <==> element.state.acc_audio_duration.ns + buffer->0.duration->0.ns
            <= 18446744073709551615),
        *buffer is Some && buffer->0.duration is None ==> (countable
            <==> element.state.acc_audio_duration.ns + (buffer->0.data@.len() / 48) * 1_000_000
            <= 18446744073709551615),
{
    if *buffer is Some {
        law_buffers_last(buffer->0);
    }
}

/// Whatever the outcome of drawing a key, a connection is begun with the key
/// that is handed in and with no other.
pub proof fn law_handed_in_key(
    element: &RealtimeTransformer,
    authority: Result<String, String>,
    key: String,
    result: Result<Option<ConnectPlan>, ConnectRefusal>,
)
    requires
        call_ensures(RealtimeTransformer::begin_connection, (element, authority, key), result),
    ensures
        element.state.connected ==> result is Ok && result->Ok_0 is None,
        !element.state.connected && authority is Err ==> result is Err && result->Err_0 is Settings
            && result->Err_0->Settings_0@ == "Failed to parse provided url: "@
            + authority->Err_0@,
        result is Ok && result->Ok_0 is Some ==> authority is Ok
            && element.settings.api_key is Some && request_headers(
            result->Ok_0->0.request,
        ) == upgrade_headers_view(
            without_user(authority->Ok_0@),
            key@,
            element.settings.api_key->0@,
            opt_text(element.settings.agent_id),
        ).to_multiset() && result->Ok_0->0.retry.max_attempts
            == element.settings.reconnect_attempts,
{
}

} // verus!
