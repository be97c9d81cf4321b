use ticos_gst::media::{FlowError, StateChange};
use ticos_gst::request::AttemptFailure;
use ticos_gst::retry::RetryStep;
use ticos_gst::websocket_video::{
    properties, FrameAction, FrameEvent, MessageIds, Offer, Property, PropertyValue, StateStep,
    Teardown, VideoMessage, WebsocketVideoSink,
};

fn connected() -> WebsocketVideoSink {
    let mut sink = WebsocketVideoSink::new();
    sink.settings.url = Some("ws://h/".to_string());
    sink.connection_ended(None).unwrap();
    sink
}

const BOTH: Teardown = Teardown { stop_receiving: true, stop_sending: true };

#[test]
fn pictures_are_framed() {
    let mut ids = MessageIds::new();
    let first = VideoMessage::new(&mut ids, &[0xff, 0xd8]);
    assert_eq!(first.as_bytes(), &[0x54, 0x20, 0, 0, 0, 1, 0, 0, 0, 2, 0xff, 0xd8, 0]);
    let second = VideoMessage::new(&mut ids, &[]);
    assert_eq!(second.as_bytes(), &[0x54, 0x20, 0, 0, 0, 2, 0, 0, 0, 0, 0]);
    let mut late = MessageIds { last: 0x0102_03ff };
    let long = vec![7; 300];
    let message = VideoMessage::new(&mut late, &long);
    assert_eq!(&message.as_bytes()[2..10], &[1, 2, 4, 0, 0, 0, 1, 44]);
    assert_eq!(&message.as_bytes()[10..310], &long[..]);
    assert_eq!(message.as_bytes().len(), 311);
}

#[test]
fn video_properties() {
    let all = properties();
    let names: Vec<&str> = all.iter().map(|s| s.property.name()).collect();
    assert_eq!(
        names,
        vec!["url", "api-key", "connection-timeout-ms", "reconnect-delay-ms", "reconnect-attempts"]
    );
    assert_eq!(all[0].nick, "URL");
    assert_eq!(all[0].blurb, "WebSocket server URL");
    assert_eq!(all[3].nick, "Reconnect Delay");
    assert_eq!(all[3].blurb, "Time between connection attempts in milliseconds");
    assert!(all.iter().all(|spec| spec.construct));
    assert!(matches!(all[2].default, PropertyValue::Number(5000)));
    assert!(matches!(all[3].default, PropertyValue::Number(5000)));
    assert!(matches!(all[4].default, PropertyValue::Number(3)));
    for spec in &all {
        assert_eq!(Property::from_name(spec.property.name()), Some(spec.property));
        assert!(spec.property.takes(&spec.default));
    }
    assert_eq!(Property::from_name("uri"), None);
    assert!(!Property::Url.takes(&PropertyValue::Number(1)));
}

#[test]
fn video_properties_are_read_back() {
    let mut sink = WebsocketVideoSink::new();
    sink.settings.set_property(Property::ApiKey, PropertyValue::Text(Some("k".to_string())));
    sink.settings.set_property(Property::ReconnectAttempts, PropertyValue::Number(8));
    match sink.settings.property(Property::ApiKey) {
        PropertyValue::Text(text) => assert_eq!(text.as_deref(), Some("k")),
        other => panic!("{:?}", other),
    }
    assert!(matches!(sink.settings.property(Property::ReconnectAttempts), PropertyValue::Number(8)));
    assert!(matches!(sink.settings.property(Property::ReconnectDelayMs), PropertyValue::Number(5000)));
    assert!(matches!(sink.settings.property(Property::Url), PropertyValue::Text(None)));
}

#[test]
fn video_connection_is_planned() {
    let mut sink = WebsocketVideoSink::new();
    sink.settings.url = Some("wss://me:pw@example.com:8443/v".to_string());
    sink.settings.api_key = Some("k1".to_string());
    sink.settings.connection_timeout_ms = 71;
    let plan = sink.ensure_connection().unwrap().unwrap();
    let headers = plan.request.headers();
    assert_eq!(headers["host"], "example.com");
    assert_eq!(headers["upgrade"], "websocket");
    assert_eq!(headers["connection"], "Upgrade");
    assert_eq!(headers["sec-websocket-key"].len(), 24);
    assert_eq!(headers["sec-websocket-version"], "13");
    assert_eq!(headers["authorization"], "Bearer k1");
    assert_eq!(headers.len(), 6);
    assert_eq!(plan.request.uri().path(), "/v");
    assert_eq!(plan.timeout_ms, 71);
    sink.settings.api_key = None;
    let plan = sink.ensure_connection().unwrap().unwrap();
    assert_eq!(plan.request.headers().len(), 5);
}

#[test]
fn address_without_a_host() {
    let mut sink = WebsocketVideoSink::new();
    sink.settings.url = Some("ws://h/".to_string());
    let plan = sink.begin_connection(Ok(None), "thekey".to_string()).unwrap().unwrap();
    assert_eq!(plan.request.headers()["host"], "");
    assert_eq!(plan.request.headers()["sec-websocket-key"], "thekey");
}

#[test]
fn video_connection_is_refused() {
    let mut sink = WebsocketVideoSink::new();
    assert_eq!(sink.ensure_connection().unwrap_err().text, "No WebSocket URL provided");
    sink.settings.url = Some("no address".to_string());
    assert_eq!(
        sink.ensure_connection().unwrap_err().text,
        "Failed to parse provided url: relative URL without a base"
    );
    sink.settings.url = Some("ws://h/".to_string());
    sink.settings.api_key = Some("a\u{7f}".to_string());
    assert_eq!(
        sink.ensure_connection().unwrap_err().text,
        "Failed to build request: failed to parse header value"
    );
}

#[test]
fn video_connection_ends() {
    let mut sink = WebsocketVideoSink::new();
    let timed_out = sink.connection_ended(Some(AttemptFailure::TimedOut("late".to_string())));
    assert_eq!(timed_out.unwrap_err().text, "Connection timeout: late");
    let failed = sink.connection_ended(Some(AttemptFailure::Socket("no".to_string())));
    assert_eq!(failed.unwrap_err().text, "WebSocket connection error: no");
    assert!(!sink.state.connected);
    let mut sink = connected();
    assert!(sink.ensure_connection().unwrap().is_none());
    assert_eq!(sink.disconnect(), BOTH);
    assert!(!sink.state.connected);
    assert!(!sink.state.has_sender);
}

#[test]
fn reconnecting() {
    let mut sink = connected();
    let (teardown, mut retry, step) = sink.try_reconnect();
    assert_eq!(teardown, BOTH);
    assert!(!sink.state.connected);
    assert!(matches!(step, RetryStep::Attempt));
    assert_eq!(retry.max_attempts, 3);
    assert!(matches!(retry.again("a".to_string()), RetryStep::WaitAndAttempt(5000)));
    sink.settings.reconnect_attempts = 0;
    match sink.try_reconnect().2 {
        RetryStep::GiveUp(text) => assert_eq!(text, "Failed to reconnect after all attempts"),
        other => panic!("{:?}", other),
    }
}

#[test]
fn frames_are_offered() {
    let refused = FrameAction::Refuse(FlowError::Error);
    let sink = connected();
    assert_eq!(sink.sink_chain(FrameEvent::Connected { worked: true }), FrameAction::Offer);
    assert_eq!(sink.sink_chain(FrameEvent::Connected { worked: false }), refused);
    assert_eq!(sink.sink_chain(FrameEvent::Offered(Offer::Accepted)), FrameAction::Done);
    assert_eq!(sink.sink_chain(FrameEvent::Offered(Offer::Full)), FrameAction::Done);
    assert_eq!(sink.sink_chain(FrameEvent::Offered(Offer::Closed)), FrameAction::Reconnect);
    assert_eq!(sink.sink_chain(FrameEvent::Reconnected { worked: true }), FrameAction::OfferAgain);
    assert_eq!(sink.sink_chain(FrameEvent::Reconnected { worked: false }), refused);
    assert_eq!(sink.sink_chain(FrameEvent::OfferedAgain(Offer::Accepted)), FrameAction::Done);
    assert_eq!(sink.sink_chain(FrameEvent::OfferedAgain(Offer::Full)), refused);
    let without = WebsocketVideoSink::new();
    assert_eq!(without.sink_chain(FrameEvent::Connected { worked: true }), refused);
    assert_eq!(without.sink_chain(FrameEvent::Reconnected { worked: true }), refused);
}

#[test]
fn end_of_video_disconnects() {
    let mut sink = connected();
    assert_eq!(sink.sink_event(false), None);
    assert!(sink.state.connected);
    assert_eq!(sink.sink_event(true), Some(BOTH));
    assert!(!sink.state.connected);
}

#[test]
fn video_state_changes() {
    let mut sink = connected();
    assert_eq!(sink.change_state(StateChange::NullToReady), StateStep::Nothing);
    assert_eq!(sink.change_state(StateChange::ReadyToPaused), StateStep::Nothing);
    assert_eq!(sink.change_state(StateChange::PausedToPlaying), StateStep::Connect);
    assert_eq!(sink.change_state(StateChange::PlayingToPaused), StateStep::Nothing);
    assert!(sink.state.connected);
    assert_eq!(sink.change_state(StateChange::PausedToReady), StateStep::Disconnect(BOTH));
    assert!(!sink.state.connected);
    assert!(matches!(sink.change_state(StateChange::ReadyToNull), StateStep::Disconnect(_)));
}
