use ticos_gst::clock::ClockTime;
use ticos_gst::realtime::settings::{properties, Property, PropertyKind, PropertyValue, Settings};
use ticos_gst::realtime::types::ToolDefinition;

fn text(value: PropertyValue) -> Option<String> {
    match value {
        PropertyValue::Text(text) => text,
        other => panic!("{:?}", other),
    }
}

#[test]
fn default_settings() {
    let s = Settings::default();
    assert_eq!(s.url.as_deref(), Some("wss://openai-realtime-ws.ticos.ai"));
    assert_eq!(s.api_key, None);
    assert_eq!(s.buffer_time_ms, 500);
    assert_eq!(f32::from_bits(s.vad_threshold_bits), 0.09);
    assert_eq!(s.vad_silence_duration_ms, 520);
    assert_eq!(s.vad_min_audio_duration, ClockTime::from_mseconds(800));
    assert!(!s.server_vad);
    assert!(s.knowledge_scripts.is_empty());
    assert!(s.tools.is_none());
    assert_eq!(s.reconnect_attempts, 3);
    assert_eq!(s.reconnect_delay_ms, 5000);
    assert_eq!(s.connection_timeout_ms, 5000);
}

#[test]
fn declared_properties() {
    let all = properties();
    assert_eq!(all.len(), 22);
    for spec in &all {
        assert_eq!(Property::from_name(spec.property.name()), Some(spec.property));
        let ready = spec.property == Property::ApiKey || spec.property == Property::AgentId;
        assert_eq!(spec.mutable_ready, ready);
    }
    assert_eq!(all[0].property.name(), "url");
    assert_eq!(all[0].nick, "URL");
    assert_eq!(all[0].blurb, "URL of the OpenAI Realtime server");
    assert_eq!(all[11].nick, "VAD Min Audio Duration");
    assert_eq!(all[11].blurb, "Minimum milliseconds of audio to commit");
    assert!(matches!(&all[0].default, PropertyValue::Text(Some(url)) if url == "ws://0.0.0.0:9000"));
    assert_eq!(all[3].property.name(), "buffer-time");
    assert!(matches!(all[3].default, PropertyValue::UInt(500)));
    assert_eq!(all[21].property.name(), "vision-object-detection-classes");
    assert_eq!(Property::from_name("no-such"), None);
}

#[test]
fn what_is_written_is_read() {
    let mut s = Settings::default();
    s.set_property(Property::Voice, PropertyValue::Text(Some("alloy".to_string())));
    assert_eq!(text(s.property(Property::Voice)).as_deref(), Some("alloy"));
    s.set_property(Property::Url, PropertyValue::Text(None));
    assert_eq!(text(s.property(Property::Url)), None);
    s.set_property(Property::BufferTime, PropertyValue::UInt(7));
    assert!(matches!(s.property(Property::BufferTime), PropertyValue::UInt(7)));
    s.set_property(Property::ReconnectDelayMs, PropertyValue::UInt64(1 << 40));
    assert_eq!(s.reconnect_delay_ms, 1 << 40);
    s.set_property(Property::ServerVad, PropertyValue::Flag(true));
    assert!(matches!(s.property(Property::ServerVad), PropertyValue::Flag(true)));
    s.set_property(Property::VadThreshold, PropertyValue::FractionBits(0.5f32.to_bits()));
    assert_eq!(f32::from_bits(s.vad_threshold_bits), 0.5);
    assert_eq!(s.vad_silence_duration_ms, 520);
}

#[test]
fn lists_are_normalized() {
    let mut s = Settings::default();
    let value = PropertyValue::Text(Some(" cat , dog,".to_string()));
    s.set_property(Property::VisionObjectDetectionClasses, value);
    assert_eq!(s.vision_object_detection_classes, vec!["cat", "dog", ""]);
    assert_eq!(text(s.property(Property::VisionObjectDetectionClasses)).as_deref(), Some("cat,dog,"));
    let value = PropertyValue::Text(Some("cat,dog,".to_string()));
    s.set_property(Property::KnowledgeScripts, value);
    assert_eq!(text(s.property(Property::KnowledgeScripts)).as_deref(), Some("cat,dog,"));
}

#[test]
fn least_audio_is_read_as_milliseconds() {
    let mut s = Settings::default();
    s.set_property(Property::VadMinAudioDuration, PropertyValue::UInt(1234));
    assert_eq!(s.vad_min_audio_duration.ns, 1_234_000_000);
    assert!(matches!(s.property(Property::VadMinAudioDuration), PropertyValue::UInt64(1234)));
}

#[test]
fn unreadable_tools_change_nothing() {
    let mut s = Settings::default();
    let tools = vec![ToolDefinition { json: "{}".to_string() }];
    s.set_property(Property::Tools, PropertyValue::Tools(Some(tools)));
    s.set_property(Property::Tools, PropertyValue::Tools(None));
    assert_eq!(s.tools.as_ref().unwrap().len(), 1);
    match s.property(Property::Tools) {
        PropertyValue::Tools(Some(tools)) => assert_eq!(tools[0].json, "{}"),
        other => panic!("{:?}", other),
    }
}

#[test]
fn values_of_the_wrong_type() {
    assert!(!Property::Url.takes(&PropertyValue::UInt(1)));
    assert!(Property::Url.takes(&PropertyValue::Text(None)));
    assert!(!Property::KnowledgeScripts.takes(&PropertyValue::Text(None)));
    assert!(!Property::ReconnectDelayMs.takes(&PropertyValue::UInt(1)));
    assert_eq!(Property::VadThreshold.kind(), PropertyKind::Fraction);
}
