use ticos_gst::realtime::client_event::ClientEvent;
use ticos_gst::realtime::connect::{
    first_attempt, handshake, next_attempt, ConnectAction, ConnectEvent, Connector, HandshakeEvent,
    HandshakeStep, Phase,
};
use ticos_gst::realtime::server_event::ServerEvent;
use ticos_gst::realtime::session::session_update;
use ticos_gst::realtime::settings::Settings;
use ticos_gst::realtime::types::{AudioFormat, MaxOutputTokens, ToolDefinition, TurnDetection};
use ticos_gst::request::AttemptFailure;
use ticos_gst::retry::{Retry, RetryStep};

fn failed(step: HandshakeStep) -> String {
    match step {
        HandshakeStep::Failed(text) => text,
        other => panic!("{:?}", other),
    }
}

fn given_up(step: RetryStep) -> String {
    match step {
        RetryStep::GiveUp(text) => text,
        other => panic!("{:?}", other),
    }
}

#[test]
fn session_of_default_settings() {
    let update = session_update(&Settings::default());
    assert_eq!(update.event_id, None);
    assert_eq!(update.session.agent_id, None);
    assert!(update.session.model.is_none());
    let hearing = update.session.hearing.unwrap();
    assert_eq!(hearing.turn_detection, None);
    assert_eq!(hearing.input_audio_format, Some(AudioFormat::PCM16));
    let speech = update.session.speech.unwrap();
    assert_eq!(speech.voice, None);
    assert_eq!(speech.output_audio_format, Some(AudioFormat::PCM16));
    assert!(update.session.knowledge.is_none());
    assert!(update.session.vision.is_none());
}

#[test]
fn session_of_full_settings() {
    let settings = Settings {
        agent_id: Some("agent".to_string()),
        voice: Some("alloy".to_string()),
        model_name: Some("m".to_string()),
        tools: Some(vec![ToolDefinition { json: "{\"a\":1}".to_string() }]),
        server_vad: true,
        vad_threshold_bits: 0.25f32.to_bits(),
        vad_silence_duration_ms: 640,
        knowledge_scripts: vec!["s1".to_string(), "s2".to_string()],
        vision_enable_object_detection: true,
        vision_object_detection_classes: vec!["cat".to_string()],
        ..Settings::default()
    };
    let session = session_update(&settings).session;
    assert_eq!(session.agent_id.as_deref(), Some("agent"));
    let model = session.model.unwrap();
    assert_eq!(model.name.as_deref(), Some("m"));
    assert_eq!(model.provider, None);
    assert_eq!(model.tools.unwrap()[0].json, "{\"a\":1}");
    assert_eq!(model.modalities.unwrap(), vec!["text", "audio"]);
    assert_eq!(model.temperature_bits.map(f32::from_bits), Some(0.7));
    assert_eq!(model.max_response_output_tokens, Some(MaxOutputTokens::Num(4096)));
    assert_eq!(
        session.hearing.unwrap().turn_detection,
        Some(TurnDetection::ServerVAD {
            threshold_bits: 0.25f32.to_bits(),
            prefix_padding_ms: 300,
            silence_duration_ms: 640,
        })
    );
    assert_eq!(session.speech.unwrap().voice.as_deref(), Some("alloy"));
    let scripts: Vec<String> = session.knowledge.unwrap().scripts.into_iter().map(|k| k.id).collect();
    assert_eq!(scripts, vec!["s1", "s2"]);
    let vision = session.vision.unwrap();
    assert!(!vision.enable_face_detection);
    assert!(vision.enable_object_detection);
    assert_eq!(vision.object_detection_target_classes, vec!["cat"]);
}

#[test]
fn one_word_on_the_model_is_enough() {
    for field in 0..3 {
        let mut settings = Settings::default();
        match field {
            0 => settings.model_provider = Some("p".to_string()),
            1 => settings.instructions = Some("i".to_string()),
            _ => settings.tools = Some(vec![]),
        }
        assert!(session_update(&settings).session.model.is_some());
    }
}

#[test]
fn one_kind_of_vision_is_enough() {
    for field in 0..2 {
        let mut settings = Settings::default();
        match field {
            0 => settings.vision_enable_face_detection = true,
            _ => settings.vision_enable_face_identification = true,
        }
        let vision = session_update(&settings).session.vision.unwrap();
        assert_eq!(vision.enable_face_detection, field == 0);
        assert_eq!(vision.enable_face_identification, field == 1);
    }
}

#[test]
fn session_update_is_a_client_event() {
    let event = ClientEvent::from(session_update(&Settings::default()));
    assert!(matches!(event, ClientEvent::SessionUpdate(update) if update.event_id.is_none()));
}

#[test]
fn server_agrees() {
    let created = HandshakeEvent::Message(Some(ServerEvent::SessionCreated));
    assert!(matches!(handshake(created), HandshakeStep::Ready));
    let updated = HandshakeEvent::Message(Some(ServerEvent::SessionUpdated));
    assert!(matches!(handshake(updated), HandshakeStep::Ready));
}

#[test]
fn other_messages_are_waited_out() {
    assert!(matches!(handshake(HandshakeEvent::Message(None)), HandshakeStep::Wait));
    let other = HandshakeEvent::Message(Some(ServerEvent::Other));
    assert!(matches!(handshake(other), HandshakeStep::Wait));
    let response = HandshakeEvent::Message(Some(ServerEvent::ResponseCreated { output: vec![] }));
    assert!(matches!(handshake(response), HandshakeStep::Wait));
}

#[test]
fn handshake_failures() {
    let error = ServerEvent::Error {
        kind: "invalid".to_string(),
        message: "no such model".to_string(),
    };
    assert_eq!(
        failed(handshake(HandshakeEvent::Message(Some(error)))),
        "Session update failed: invalid (no such model)"
    );
    assert_eq!(
        failed(handshake(HandshakeEvent::ReceiveFailed("y".to_string()))),
        "Failed to receive message: y"
    );
    assert_eq!(
        failed(handshake(HandshakeEvent::Closed)),
        "No session created confirmation received"
    );
    assert_eq!(
        failed(handshake(HandshakeEvent::TimedOut)),
        "Timeout waiting for session creation confirmation"
    );
}

#[test]
fn connection_attempts() {
    let mut retry = Retry::new(2, 30);
    assert!(matches!(first_attempt(&retry), RetryStep::Attempt));
    let step = next_attempt(&mut retry, AttemptFailure::Socket("refused".to_string()));
    assert!(matches!(step, RetryStep::WaitAndAttempt(30)));
    let step = next_attempt(&mut retry, AttemptFailure::TimedOut("elapsed".to_string()));
    assert_eq!(given_up(step), "Connection timeout: elapsed");
    let mut once = Retry::new(1, 30);
    let step = next_attempt(&mut once, AttemptFailure::Socket("refused".to_string()));
    assert_eq!(given_up(step), "WebSocket connection error: refused");
}

#[test]
fn no_connection_attempt_allowed() {
    assert_eq!(given_up(first_attempt(&Retry::new(0, 30))), "Failed to connect after 0 attempts");
}

fn over(action: ConnectAction) -> String {
    match action {
        ConnectAction::Failed(text) => text,
        other => panic!("{:?}", other),
    }
}

#[test]
fn the_whole_way_to_a_connection() {
    let (mut way, action) = Connector::begin(Retry::new(2, 40));
    assert!(matches!(action, ConnectAction::Attempt));
    let refused = AttemptFailure::Socket("refused".to_string());
    let action = way.step(ConnectEvent::Attempted(Some(refused)));
    assert!(matches!(action, ConnectAction::WaitAndAttempt(40)));
    assert!(matches!(way.step(ConnectEvent::Attempted(None)), ConnectAction::SendUpdate));
    assert!(matches!(way.step(ConnectEvent::UpdateSent(None)), ConnectAction::Receive));
    let action = way.step(ConnectEvent::Received(HandshakeEvent::Message(None)));
    assert!(matches!(action, ConnectAction::Receive));
    let created = HandshakeEvent::Message(Some(ServerEvent::SessionCreated));
    assert!(matches!(way.step(ConnectEvent::Received(created)), ConnectAction::Reunite));
    assert!(matches!(way.step(ConnectEvent::Reunited(true)), ConnectAction::Connected));
    assert_eq!(way.phase, Phase::Connected);
    assert!(matches!(way.step(ConnectEvent::Reunited(false)), ConnectAction::Ignore));
    assert_eq!(way.phase, Phase::Connected);
}

#[test]
fn ways_that_lead_nowhere() {
    let (way, action) = Connector::begin(Retry::new(0, 40));
    assert_eq!(over(action), "Failed to connect after 0 attempts");
    assert_eq!(way.phase, Phase::Failed);

    let (mut way, _) = Connector::begin(Retry::new(1, 40));
    let late = AttemptFailure::TimedOut("late".to_string());
    assert_eq!(over(way.step(ConnectEvent::Attempted(Some(late)))), "Connection timeout: late");
    assert_eq!(way.phase, Phase::Failed);

    let (mut way, _) = Connector::begin(Retry::new(1, 40));
    way.step(ConnectEvent::Attempted(None));
    assert_eq!(
        over(way.step(ConnectEvent::UpdateSent(Some("x".to_string())))),
        "Failed to send initial message: x"
    );
    assert_eq!(way.phase, Phase::Failed);

    let (mut way, _) = Connector::begin(Retry::new(1, 40));
    way.step(ConnectEvent::Attempted(None));
    way.step(ConnectEvent::UpdateSent(None));
    assert_eq!(
        over(way.step(ConnectEvent::Received(HandshakeEvent::Closed))),
        "No session created confirmation received"
    );
    assert_eq!(way.phase, Phase::Failed);

    let (mut way, _) = Connector::begin(Retry::new(1, 40));
    way.step(ConnectEvent::Attempted(None));
    way.step(ConnectEvent::UpdateSent(None));
    let updated = HandshakeEvent::Message(Some(ServerEvent::SessionUpdated));
    way.step(ConnectEvent::Received(updated));
    assert_eq!(
        over(way.step(ConnectEvent::Reunited(false))),
        "Failed to reunite WebSocket stream"
    );
    assert_eq!(way.phase, Phase::Failed);
}

#[test]
fn as_many_attempts_as_allowed() {
    let (mut way, action) = Connector::begin(Retry::new(3, 25));
    assert!(matches!(action, ConnectAction::Attempt));
    for n in 1..3 {
        let refused = AttemptFailure::Socket(format!("refused {}", n));
        let action = way.step(ConnectEvent::Attempted(Some(refused)));
        assert!(matches!(action, ConnectAction::WaitAndAttempt(25)));
    }
    let refused = AttemptFailure::Socket("refused 3".to_string());
    assert_eq!(
        over(way.step(ConnectEvent::Attempted(Some(refused)))),
        "WebSocket connection error: refused 3"
    );
    assert_eq!(way.retry.attempts, 3);
}
