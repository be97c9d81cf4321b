use ticos_gst::realtime::client_event::{
    ConversationItemCreate, ConversationItemDelete, ConversationItemTruncate,
    InputAudioBufferAppend, InputAudioBufferClear, InputAudioBufferCommit, ResponseCancel,
    ResponseCreate, SessionUpdate,
};
use ticos_gst::realtime::session::session_update;
use ticos_gst::realtime::settings::Settings;
use ticos_gst::realtime::types::{Item, ItemContent, ToolDefinition};

#[test]
fn events_start_out_empty() {
    let update = SessionUpdate::default();
    assert_eq!(update.event_id, None);
    assert!(update.session.model.is_none() && update.session.hearing.is_none());
    assert_eq!(InputAudioBufferAppend::default().audio, "");
    assert_eq!(InputAudioBufferCommit::default().event_id, None);
    assert_eq!(InputAudioBufferClear::default().event_id, None);
    let create = ConversationItemCreate::default();
    assert!(create.previous_item_id.is_none() && create.item.content.is_none());
    let truncate = ConversationItemTruncate::default();
    assert_eq!((truncate.content_index, truncate.audio_end_ms), (0, 0));
    assert_eq!(ConversationItemDelete::default().item_id, "");
    assert_eq!(ResponseCreate::default().event_id, None);
    assert_eq!(ResponseCancel::default().event_id, None);
}

#[test]
fn events_are_copied() {
    let append = InputAudioBufferAppend {
        event_id: Some("e".to_string()),
        audio: "AAAA".to_string(),
    };
    let copy = append.clone();
    assert_eq!((copy.event_id.as_deref(), copy.audio.as_str()), (Some("e"), "AAAA"));
    let truncate = ConversationItemTruncate {
        event_id: None,
        item_id: "i".to_string(),
        content_index: 3,
        audio_end_ms: 9,
    };
    let copy = truncate.clone();
    assert_eq!((copy.item_id.as_str(), copy.content_index, copy.audio_end_ms), ("i", 3, 9));
    let create = ConversationItemCreate {
        event_id: None,
        previous_item_id: Some("p".to_string()),
        item: Item {
            role: Some("user".to_string()),
            content: Some(vec![ItemContent {
                kind: "input_text".to_string(),
                text: Some("hi".to_string()),
                audio: None,
                transcript: None,
            }]),
            ..Item::default()
        },
    };
    let copy = create.clone();
    assert_eq!(copy.previous_item_id.as_deref(), Some("p"));
    assert_eq!(copy.item.role.as_deref(), Some("user"));
    assert_eq!(copy.item.content.unwrap()[0].text.as_deref(), Some("hi"));
}

#[test]
fn configurations_are_copied() {
    let settings = Settings {
        agent_id: Some("agent".to_string()),
        model_name: Some("m".to_string()),
        tools: Some(vec![ToolDefinition { json: "{}".to_string() }]),
        knowledge_scripts: vec!["s".to_string()],
        vision_enable_face_detection: true,
        vision_object_detection_classes: vec!["cat".to_string()],
        ..Settings::default()
    };
    let session = session_update(&settings).clone().session;
    assert_eq!(session.agent_id.as_deref(), Some("agent"));
    let model = session.model.unwrap();
    assert_eq!(model.modalities.unwrap(), vec!["text", "audio"]);
    assert_eq!(model.tools.unwrap()[0].json, "{}");
    assert_eq!(session.knowledge.unwrap().scripts[0].id, "s");
    let vision = session.vision.unwrap();
    assert!(vision.enable_face_detection);
    assert_eq!(vision.object_detection_target_classes, vec!["cat"]);
}
