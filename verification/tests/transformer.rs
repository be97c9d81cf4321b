use ticos_gst::clock::ClockTime;
use ticos_gst::media::{Buffer, FlowError, StateChange};
use ticos_gst::realtime::client_event::ClientEvent;
use ticos_gst::realtime::transformer::{
    append_message, flush_answer, send_delay, upgrade_headers, without_connection, CommitAction,
    CommitEvent, ConnectOutcome, ConnectPlan, ConnectRefusal, RealtimeTransformer, SendOutcome,
    SendPlan, SinkAction, SinkEvent, Teardown,
};
use ticos_gst::request::host_and_port;

fn ms(n: u64) -> ClockTime {
    ClockTime::from_mseconds(n)
}

fn with_url(url: &str) -> RealtimeTransformer {
    let mut element = RealtimeTransformer::new();
    element.settings.url = Some(url.to_string());
    element.settings.api_key = Some("k1".to_string());
    element
}

fn header(plan: &ConnectPlan, name: &str) -> Option<String> {
    plan.request.headers().get(name).map(|v| v.to_str().unwrap().to_string())
}

fn audio(duration: Option<u64>, size: usize) -> Option<Buffer> {
    Some(Buffer {
        pts: Some(ms(0)),
        duration: duration.map(ms),
        data: vec![0; size],
    })
}

#[test]
fn user_is_cut_off() {
    assert_eq!(host_and_port("me:secret@host:9"), "host:9");
    assert_eq!(host_and_port("host:9"), "host:9");
    assert_eq!(host_and_port("a@b@c"), "b@c");
    assert_eq!(host_and_port(""), "");
}

#[test]
fn headers_of_the_request() {
    let headers = upgrade_headers("h".to_string(), "key".to_string(), "secret", &Some("id".to_string()));
    let all: Vec<(&str, &str)> = headers.iter().map(|h| (h.name, h.value.as_str())).collect();
    assert_eq!(
        all,
        vec![
            ("host", "h"),
            ("upgrade", "websocket"),
            ("connection", "keep-alive, upgrade"),
            ("sec-websocket-key", "key"),
            ("sec-websocket-version", "13"),
            ("authorization", "Bearer secret"),
            ("x-ticos-agent-id", "id"),
        ]
    );
    assert_eq!(upgrade_headers(String::new(), String::new(), "", &None).len(), 6);
}

#[test]
fn connection_is_planned() {
    let mut element = with_url("wss://me:pw@example.com:8443/v1?x=1");
    element.settings.agent_id = Some("agent-7".to_string());
    element.settings.reconnect_attempts = 9;
    element.settings.connection_timeout_ms = 70;
    let plan = element.ensure_connection().unwrap().unwrap();
    assert_eq!(plan.request.method().as_str(), "GET");
    assert_eq!(plan.request.uri().path_and_query().unwrap().as_str(), "/v1?x=1");
    assert_eq!(header(&plan, "Host").as_deref(), Some("example.com:8443"));
    assert_eq!(header(&plan, "Upgrade").as_deref(), Some("websocket"));
    assert_eq!(header(&plan, "Connection").as_deref(), Some("keep-alive, upgrade"));
    assert_eq!(header(&plan, "Sec-WebSocket-Version").as_deref(), Some("13"));
    assert_eq!(header(&plan, "Authorization").as_deref(), Some("Bearer k1"));
    assert_eq!(header(&plan, "X-Ticos-Agent-ID").as_deref(), Some("agent-7"));
    assert_eq!(plan.request.headers().len(), 7);
    assert_eq!(plan.retry.max_attempts, 9);
    assert_eq!(plan.retry.attempts, 0);
    assert_eq!(plan.retry.delay_ms, 5000);
    assert_eq!(plan.timeout_ms, 70);
    assert_eq!(plan.update.session.agent_id.as_deref(), Some("agent-7"));
}

#[test]
fn keys_are_new_each_time() {
    let element = with_url("ws://h");
    let a = header(&element.ensure_connection().unwrap().unwrap(), "sec-websocket-key").unwrap();
    let b = header(&element.ensure_connection().unwrap().unwrap(), "sec-websocket-key").unwrap();
    assert_eq!(a.len(), 24);
    assert!(a.ends_with("=="));
    assert_ne!(a, b);
}

#[test]
fn address_without_a_setting() {
    let mut element = with_url("ws://h");
    element.settings.url = None;
    assert_eq!(element.address(), "ws://0.0.0.0:9000");
    let plan = element.ensure_connection().unwrap().unwrap();
    assert_eq!(header(&plan, "host").as_deref(), Some("0.0.0.0:9000"));
}

#[test]
fn connection_is_refused() {
    match with_url("no address").ensure_connection() {
        Err(ConnectRefusal::Settings(e)) => {
            assert_eq!(e.text, "Failed to parse provided url: relative URL without a base");
        }
        other => panic!("{:?}", other),
    }
    let mut element = with_url("ws://h");
    element.settings.api_key = None;
    match element.ensure_connection() {
        Err(ConnectRefusal::Settings(e)) => assert_eq!(e.text, "An API key is required"),
        other => panic!("{:?}", other),
    }
    element.settings.api_key = Some("a\nb".to_string());
    match element.ensure_connection() {
        Err(ConnectRefusal::Request(e)) => assert_eq!(e, "failed to parse header value"),
        other => panic!("{:?}", other),
    }
    element.settings.api_key = Some("k".to_string());
    element.settings.agent_id = Some("a\u{1}".to_string());
    match element.ensure_connection() {
        Err(ConnectRefusal::Request(e)) => assert_eq!(e, "failed to parse header value"),
        other => panic!("{:?}", other),
    }
    match with_url("ws://例え.jp/").ensure_connection() {
        Err(ConnectRefusal::Request(e)) => assert_eq!(e, "invalid uri character"),
        other => panic!("{:?}", other),
    }
}

#[test]
fn begun_with_given_results() {
    let element = with_url("ws://u@h:1/");
    let plan = element.begin_connection(Ok("u@h:1".to_string()), "thekey".to_string()).unwrap().unwrap();
    assert_eq!(header(&plan, "sec-websocket-key").as_deref(), Some("thekey"));
    assert_eq!(header(&plan, "host").as_deref(), Some("h:1"));
    match element.begin_connection(Err("odd".to_string()), String::new()) {
        Err(ConnectRefusal::Settings(e)) => assert_eq!(e.text, "Failed to parse provided url: odd"),
        other => panic!("{:?}", other),
    }
}

#[test]
fn connection_outcomes() {
    let mut element = with_url("ws://h");
    let failed = element.connection_ended(ConnectOutcome::Failed("why".to_string()));
    assert_eq!(failed.unwrap_err().text, "Connection failed: why");
    let lost = element.connection_ended(ConnectOutcome::Lost);
    assert_eq!(lost.unwrap_err().text, "Connection task failed");
    assert!(!element.state.connected);
    element.connection_ended(ConnectOutcome::Connected).unwrap();
    assert!(element.state.connected);
    assert!(element.state.receiving);
    assert!(element.ensure_connection().unwrap().is_none());
}

#[test]
fn disconnecting_forgets_everything() {
    let mut element = with_url("ws://h");
    element.connection_ended(ConnectOutcome::Connected).unwrap();
    element.request_new_pad(11);
    assert_eq!(element.disconnect(), Teardown { stop_receiving: true, stop_sending: false });
    assert!(!element.state.connected);
    assert!(element.state.srcpads.is_empty());
    assert_eq!(element.state.pad_serial, 0);
    element.sending_started();
    assert_eq!(element.disconnect(), Teardown { stop_receiving: false, stop_sending: true });
    assert_eq!(element.settings.url.as_deref(), Some("ws://h"));
}

#[test]
fn buffers_need_a_time() {
    let element = RealtimeTransformer::new();
    let mut buffer = audio(None, 4).unwrap();
    assert_eq!(element.sink_chain(&buffer), Ok(()));
    buffer.pts = None;
    assert_eq!(element.sink_chain(&buffer), Err(FlowError::Error));
}

#[test]
fn audio_is_appended_as_base64() {
    let buffer = Buffer { pts: None, duration: None, data: vec![0, 1, 2, 3] };
    match append_message(&buffer) {
        ClientEvent::InputAudioBufferAppend(append) => {
            assert_eq!(append.event_id, None);
            assert_eq!(append.audio, "AAECAw==");
        }
        other => panic!("{:?}", other),
    }
}

#[test]
fn buffers_wait_for_their_time() {
    assert_eq!(send_delay(Some(ms(30)), ms(10)), Some(ms(20)));
    assert_eq!(send_delay(Some(ms(10)), ms(10)), Some(ms(0)));
    assert_eq!(send_delay(Some(ms(9)), ms(10)), None);
    assert_eq!(send_delay(None, ms(10)), None);
}

#[test]
fn end_without_connection() {
    let (flow, words) = without_connection(false, "why");
    assert_eq!(flow, FlowError::Eos);
    assert!(words.is_none());
    let (flow, words) = without_connection(true, "why");
    assert_eq!(flow, FlowError::Error);
    assert_eq!(words.unwrap().text, "Streaming failed: why");
}

#[test]
fn audio_is_committed_after_enough_of_it() {
    let mut element = RealtimeTransformer::new();
    let plan = element.sync_and_send(&audio(Some(800), 4), SendOutcome::Sent);
    assert_eq!(plan, Ok(SendPlan { disarm: false, arm: None }));
    assert_eq!(element.state.acc_audio_duration, ms(800));
    // 48 bytes last a millisecond.
    let plan = element.sync_and_send(&audio(None, 48), SendOutcome::Sent);
    assert_eq!(plan, Ok(SendPlan { disarm: false, arm: Some(520) }));
    assert_eq!(element.state.acc_audio_duration, ms(801));
    let plan = element.sync_and_send(&None, SendOutcome::NoBuffer);
    assert_eq!(plan, Ok(SendPlan { disarm: true, arm: Some(520) }));
    element.forget_heard_audio();
    assert_eq!(element.state.acc_audio_duration, ms(0));
    let plan = element.sync_and_send(&audio(Some(1), 4), SendOutcome::Sent);
    assert_eq!(plan, Ok(SendPlan { disarm: true, arm: None }));
}

#[test]
fn server_that_tells_turns_is_left_alone() {
    let mut element = RealtimeTransformer::new();
    element.settings.server_vad = true;
    let plan = element.sync_and_send(&audio(Some(100_000), 4), SendOutcome::Sent);
    assert_eq!(plan, Ok(SendPlan { disarm: false, arm: None }));
}

#[test]
fn failures_to_send_audio() {
    let mut element = RealtimeTransformer::new();
    element.connection_ended(ConnectOutcome::Connected).unwrap();
    let plan = element.sync_and_send(&audio(Some(1), 4), SendOutcome::NoConnection);
    assert_eq!(plan, Err(FlowError::Error));
    assert!(element.state.connected);
    let plan = element.sync_and_send(&audio(Some(1), 4), SendOutcome::Failed);
    assert_eq!(plan, Err(FlowError::Error));
    assert!(!element.state.connected);
    assert_eq!(element.state.acc_audio_duration, ms(0));
}

#[test]
fn audio_that_cannot_be_counted() {
    let mut element = RealtimeTransformer::new();
    element.state.acc_audio_duration = ClockTime { ns: u64::MAX - 1_000_000 };
    assert!(element.counts(&audio(Some(1), 0)));
    assert!(!element.counts(&audio(Some(2), 0)));
    assert!(element.counts(&audio(None, 48)));
    assert!(!element.counts(&audio(None, 96)));
    assert!(element.counts(&None));
}

#[test]
fn commit_and_ask() {
    let mut element = RealtimeTransformer::new();
    element.connection_ended(ConnectOutcome::Connected).unwrap();
    match element.commit_audio(CommitEvent::Due { has_connection: true }) {
        CommitAction::Send(ClientEvent::InputAudioBufferCommit(c)) => assert_eq!(c.event_id, None),
        other => panic!("{:?}", other),
    }
    match element.commit_audio(CommitEvent::Committed { sent: true }) {
        CommitAction::Send(ClientEvent::ResponseCreate(c)) => assert_eq!(c.event_id, None),
        other => panic!("{:?}", other),
    }
    assert!(matches!(element.commit_audio(CommitEvent::Asked { sent: true }), CommitAction::Done));
    assert!(element.state.connected);
    let action = element.commit_audio(CommitEvent::Due { has_connection: false });
    assert!(matches!(action, CommitAction::Done));
}

#[test]
fn failed_commit_drops_the_connection() {
    for event in [CommitEvent::Committed { sent: false }, CommitEvent::Asked { sent: false }] {
        let mut element = RealtimeTransformer::new();
        element.connection_ended(ConnectOutcome::Connected).unwrap();
        assert!(matches!(element.commit_audio(event), CommitAction::DropConnection));
        assert!(!element.state.connected);
    }
}

#[test]
fn events_on_the_input() {
    let mut element = RealtimeTransformer::new();
    assert!(matches!(element.sink_event(SinkEvent::Eos), SinkAction::Drain));
    assert!(matches!(element.sink_event(SinkEvent::FlushStop), SinkAction::Restart));
    assert!(matches!(element.sink_event(SinkEvent::Tag), SinkAction::Accept));
    assert!(matches!(element.sink_event(SinkEvent::Caps), SinkAction::Accept));
    assert!(matches!(element.sink_event(SinkEvent::Other), SinkAction::Default));
    match element.sink_event(SinkEvent::Segment { time: Some(ms(4)), seqnum: 6 }) {
        SinkAction::StartSegment { time, seqnum } => {
            assert_eq!(time, Some(ms(4)));
            assert_eq!(seqnum, 6);
        }
        other => panic!("{:?}", other),
    }
    match element.sink_event(SinkEvent::OtherSegment { format: "Bytes".to_string() }) {
        SinkAction::Refuse(e) => assert_eq!(e.text, "Only Time segments supported, got Bytes"),
        other => panic!("{:?}", other),
    }
}

#[test]
fn flush_disconnects() {
    let mut element = RealtimeTransformer::new();
    element.connection_ended(ConnectOutcome::Connected).unwrap();
    match element.sink_event(SinkEvent::FlushStart) {
        SinkAction::Disconnect(teardown) => assert!(teardown.stop_receiving),
        other => panic!("{:?}", other),
    }
    assert!(!element.state.connected);
    assert!(flush_answer(true, &vec![]));
    assert!(flush_answer(true, &vec![true, true]));
    assert!(!flush_answer(true, &vec![true, false]));
    assert!(!flush_answer(false, &vec![true]));
}

#[test]
fn pads_are_numbered() {
    let mut element = RealtimeTransformer::new();
    element.add_pad(100);
    assert_eq!(element.request_new_pad(5), "realtime_src_0");
    assert_eq!(element.request_new_pad(3), "realtime_src_1");
    assert_eq!(element.state.srcpads.iter().copied().collect::<Vec<u64>>(), vec![3, 5, 100]);
    assert_eq!(element.state.pad_serial, 2);
}

#[test]
fn leaving_the_paused_state_disconnects() {
    let mut element = RealtimeTransformer::new();
    element.connection_ended(ConnectOutcome::Connected).unwrap();
    assert_eq!(element.change_state(StateChange::PlayingToPaused), None);
    assert!(element.state.connected);
    let teardown = element.change_state(StateChange::PausedToReady);
    assert_eq!(teardown, Some(Teardown { stop_receiving: true, stop_sending: false }));
    assert!(!element.state.connected);
}

#[test]
fn sound_settings_always_give_a_plan() {
    let element = with_url("ws://h");
    for _ in 0..100 {
        assert!(element.ensure_connection().unwrap().is_some());
    }
}
