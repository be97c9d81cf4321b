//! How a session is configured.

use vstd::prelude::*;

use crate::realtime::client_event::SessionUpdate;
use crate::realtime::settings::{clone_tools, Settings, DEFAULT_VAD_PREFIX_PADDING_MS};
use crate::realtime::types::{
    entries, AudioFormat, Hearing, Knowledge, KnowledgeScript, MaxOutputTokens, Model, Session,
    Speech, TurnDetection, Vision,
};
use crate::text::texts;

verus! {

/// The temperature of the model, 0.7, by the bits of a 32-bit floating point
/// number.
pub const TEMPERATURE_BITS: u32 = 0x3f33_3333;

/// The most tokens that a response takes.
pub const MAX_RESPONSE_TOKENS: u32 = 4096;

/// Whether the settings say anything of the model.
pub open spec fn names_model(s: Settings) -> bool {
    s.model_name is Some || s.tools is Some || s.model_provider is Some || s.instructions is Some
}

/// Whether `model` is what the settings say of the model.
pub open spec fn model_configured(s: Settings, model: Option<Model>) -> bool {
    if names_model(s) {
        &&& model is Some
        &&& model->0.name == s.model_name
        &&& entries(model->0.tools) == entries(s.tools)
        &&& model->0.provider == s.model_provider
        &&& model->0.modalities is Some
        &&& texts(model->0.modalities->0@) == seq!["text"@, "audio"@]
        &&& model->0.temperature_bits == Some(TEMPERATURE_BITS)
        &&& model->0.instructions == s.instructions
        &&& model->0.max_response_output_tokens == Some(MaxOutputTokens::Num(MAX_RESPONSE_TOKENS))
    } else {
        model is None
    }
}

/// Whether `hearing` is what the settings say of what is heard.
pub open spec fn hearing_configured(s: Settings, hearing: Option<Hearing>) -> bool {
    &&& hearing is Some
    &&& hearing->0.input_audio_format == Some(AudioFormat::PCM16)
    &&& hearing->0.turn_detection == if s.server_vad {
        Some(
            TurnDetection::ServerVAD {
                threshold_bits: s.vad_threshold_bits,
                prefix_padding_ms: DEFAULT_VAD_PREFIX_PADDING_MS,
                silence_duration_ms: s.vad_silence_duration_ms,
            },
        )
    } else {
        None
    }
}

/// Whether `knowledge` is what the settings say of the session's knowledge.
pub open spec fn knowledge_configured(s: Settings, knowledge: Option<Knowledge>) -> bool {
    if s.knowledge_scripts@.len() > 0 {
        &&& knowledge is Some
        &&& knowledge->0.scripts@.map_values(|k: KnowledgeScript| k.id@) == texts(
            s.knowledge_scripts@,
        )
    } else {
        knowledge is None
    }
}

/// Whether `vision` is what the settings say of what is seen.
pub open spec fn vision_configured(s: Settings, vision: Option<Vision>) -> bool {
    if s.vision_enable_face_detection || s.vision_enable_face_identification
        || s.vision_enable_object_detection {
        &&& vision is Some
        &&& vision->0.enable_face_detection == s.vision_enable_face_detection
        &&& vision->0.enable_face_identification == s.vision_enable_face_identification
        &&& vision->0.enable_object_detection == s.vision_enable_object_detection
        &&& texts(vision->0.object_detection_target_classes@) == texts(
            s.vision_object_detection_classes@,
        )
    } else {
        vision is None
    }
}

/// Whether `update` is the configuration that the settings ask for.
pub open spec fn configured(s: Settings, update: SessionUpdate) -> bool {
    &&& update.event_id is None
    &&& update.session.agent_id == s.agent_id
    &&& model_configured(s, update.session.model)
    &&& hearing_configured(s, update.session.hearing)
    &&& update.session.speech is Some
    &&& update.session.speech->0.voice == s.voice
    &&& update.session.speech->0.output_audio_format == Some(AudioFormat::PCM16)
    &&& knowledge_configured(s, update.session.knowledge)
    &&& vision_configured(s, update.session.vision)
}

fn model(s: &Settings) -> (r: Option<Model>)
    ensures
        model_configured(*s, r),
{
    if s.model_name.is_some() || s.tools.is_some() || s.model_provider.is_some()
        || s.instructions.is_some() {
        let mut modalities: Vec<String> = Vec::new();
        modalities.push("text".to_string());
        modalities.push("audio".to_string());
        assert(texts(modalities@) =~= seq!["text"@, "audio"@]);
        Some(
            Model {
                name: s.model_name.clone(),
                tools: clone_tools(&s.tools),
                provider: s.model_provider.clone(),
                modalities: Some(modalities),
                temperature_bits: Some(TEMPERATURE_BITS),
                instructions: s.instructions.clone(),
                max_response_output_tokens: Some(MaxOutputTokens::Num(MAX_RESPONSE_TOKENS)),
            },
        )
    } else {
        None
    }
}

fn knowledge(s: &Settings) -> (r: Option<Knowledge>)
    ensures
        knowledge_configured(*s, r),
{
    if s.knowledge_scripts.len() == 0 {
        return None;
    }
    let mut scripts: Vec<KnowledgeScript> = Vec::new();
    let mut i: usize = 0;
    while i < s.knowledge_scripts.len()
        invariant
            i <= s.knowledge_scripts@.len(),
            scripts@.len() == i,
            forall|j: int| 0 <= j < i ==> (#[trigger] scripts@[j]).id == s.knowledge_scripts@[j],
        decreases s.knowledge_scripts@.len() - i,
    {
        scripts.push(KnowledgeScript { id: s.knowledge_scripts[i].clone() });
        i = i + 1;
    }
    assert(scripts@.map_values(|k: KnowledgeScript| k.id@) =~= texts(s.knowledge_scripts@));
    Some(Knowledge { scripts })
}

fn vision(s: &Settings) -> (r: Option<Vision>)
    ensures
        vision_configured(*s, r),
{
    if s.vision_enable_face_detection || s.vision_enable_face_identification
        || s.vision_enable_object_detection {
        let classes: Vec<String> = s.vision_object_detection_classes.clone();
        assert(classes@ =~= s.vision_object_detection_classes@);
        Some(
            Vision {
                enable_face_detection: s.vision_enable_face_detection,
                enable_face_identification: s.vision_enable_face_identification,
                enable_object_detection: s.vision_enable_object_detection,
                object_detection_target_classes: classes,
            },
        )
    } else {
        None
    }
}

/// The configuration that the settings ask for.
pub fn session_update(s: &Settings) -> (r: SessionUpdate)
    ensures
        configured(*s, r),
{
    let turn_detection: Option<TurnDetection> = if s.server_vad {
        Some(
            TurnDetection::ServerVAD {
                threshold_bits: s.vad_threshold_bits,
                prefix_padding_ms: DEFAULT_VAD_PREFIX_PADDING_MS,
                silence_duration_ms: s.vad_silence_duration_ms,
            },
        )
    } else {
        None
    };
    SessionUpdate {
        event_id: None,
        session: Session {
            agent_id: s.agent_id.clone(),
            model: model(s),
            hearing: Some(
                Hearing { turn_detection, input_audio_format: Some(AudioFormat::PCM16) },
            ),
            speech: Some(
                Speech { voice: s.voice.clone(), output_audio_format: Some(AudioFormat::PCM16) },
            ),
            knowledge: knowledge(s),
            vision: vision(s),
        },
    }
}

/// Whatever the settings say reaches the server: the agent and the voice as
/// they are, the model with its name, its provider, its instructions and its
/// tools as soon as one of them is set, what turns are told by, the scripts,
/// and what is to be seen.
pub proof fn law_settings_reach_the_server(s: Settings, u: SessionUpdate)
    requires
        configured(s, u),
    ensures
        u.event_id is None,
        u.session.agent_id is Some <==> s.agent_id is Some,
        s.agent_id is Some ==> u.session.agent_id->0@ == s.agent_id->0@,
        u.session.model is Some <==> s.model_name is Some || s.model_provider is Some
            || s.instructions is Some || s.tools is Some,
        u.session.model is Some ==> {
            let model = u.session.model->0;
            &&& model.name is Some <==> s.model_name is Some
            &&& s.model_name is Some ==> model.name->0@ == s.model_name->0@
            &&& model.provider is Some <==> s.model_provider is Some
            &&& s.model_provider is Some ==> model.provider->0@ == s.model_provider->0@
            &&& model.instructions is Some <==> s.instructions is Some
            &&& s.instructions is Some ==> model.instructions->0@ == s.instructions->0@
            &&& model.tools is Some <==> s.tools is Some
            &&& s.tools is Some ==> model.tools->0@ == s.tools->0@
            &&& model.modalities is Some && model.modalities->0@.len() == 2
            &&& model.modalities->0@[0]@ == "text"@ && model.modalities->0@[1]@ == "audio"@
            &&& model.temperature_bits == Some(1060320051u32)
            &&& model.max_response_output_tokens == Some(MaxOutputTokens::Num(4096))
        },
        u.session.hearing is Some,
        u.session.hearing->0.input_audio_format == Some(AudioFormat::PCM16),
        u.session.hearing->0.turn_detection is Some <==> s.server_vad,
        s.server_vad ==> {
            let detection = u.session.hearing->0.turn_detection->0;
            &&& detection->threshold_bits == s.vad_threshold_bits
            &&& detection->prefix_padding_ms == 300
            &&& detection->silence_duration_ms == s.vad_silence_duration_ms
        },
        u.session.speech is Some,
        u.session.speech->0.output_audio_format == Some(AudioFormat::PCM16),
        u.session.speech->0.voice is Some <==> s.voice is Some,
        s.voice is Some ==> u.session.speech->0.voice->0@ == s.voice->0@,
        u.session.knowledge is Some <==> s.knowledge_scripts@.len() > 0,
        u.session.knowledge is Some ==> {
            let scripts = u.session.knowledge->0.scripts@;
            &&& scripts.len() == s.knowledge_scripts@.len()
            &&& forall|i: int|
                0 <= i < scripts.len() ==> (#[trigger] scripts[i]).id@ == s.knowledge_scripts@[i]@
        },
        u.session.vision is Some <==> s.vision_enable_face_detection
            || s.vision_enable_face_identification || s.vision_enable_object_detection,
        u.session.vision is Some ==> {
            let vision = u.session.vision->0;
            let classes = vision.object_detection_target_classes@;
            &&& vision.enable_face_detection == s.vision_enable_face_detection
            &&& vision.enable_face_identification == s.vision_enable_face_identification
            &&& vision.enable_object_detection == s.vision_enable_object_detection
            &&& classes.len() == s.vision_object_detection_classes@.len()
            &&& forall|i: int|
                0 <= i < classes.len() ==> (#[trigger] classes[i])@
                    == s.vision_object_detection_classes@[i]@
        },
{
    if u.session.model is Some {
        let list = u.session.model->0.modalities->0@;
        assert(texts(list).len() == list.len());
        assert(texts(list)[0] == list[0]@ && texts(list)[1] == list[1]@);
    }
    if u.session.knowledge is Some {
        let scripts = u.session.knowledge->0.scripts@;
        let ids = scripts.map_values(|k: KnowledgeScript| k.id@);
        assert(ids.len() == scripts.len());
        assert(texts(s.knowledge_scripts@).len() == s.knowledge_scripts@.len());
        assert forall|i: int| 0 <= i < scripts.len() implies (#[trigger] scripts[i]).id@
            == s.knowledge_scripts@[i]@ by {
            assert(ids[i] == scripts[i].id@);
            assert(texts(s.knowledge_scripts@)[i] == s.knowledge_scripts@[i]@);
        }
    }
    if u.session.vision is Some {
        let classes = u.session.vision->0.object_detection_target_classes@;
        let wanted = s.vision_object_detection_classes@;
        assert(texts(classes).len() == classes.len());
        assert(texts(wanted).len() == wanted.len());
        assert forall|i: int| 0 <= i < classes.len() implies (#[trigger] classes[i])@
            == wanted[i]@ by {
            assert(texts(classes)[i] == classes[i]@);
            assert(texts(wanted)[i] == wanted[i]@);
        }
    }
}

/// Settings that differ in what is said, by whom, in which voice or by which
/// model give configurations that differ.
pub proof fn law_settings_are_told_apart(
    s: Settings,
    other: Settings,
    u: SessionUpdate,
    other_u: SessionUpdate,
)
    requires
        configured(s, u),
        configured(other, other_u),
        u == other_u,
    ensures
        s.instructions == other.instructions,
        s.model_name == other.model_name,
        s.model_provider == other.model_provider,
        s.voice == other.voice,
        s.agent_id == other.agent_id,
        s.server_vad == other.server_vad,
        s.server_vad ==> s.vad_threshold_bits == other.vad_threshold_bits
            && s.vad_silence_duration_ms == other.vad_silence_duration_ms,
        s.vision_enable_face_detection == other.vision_enable_face_detection,
        s.vision_enable_face_identification == other.vision_enable_face_identification,
        s.vision_enable_object_detection == other.vision_enable_object_detection,
{
}

/// Instructions that are set are part of the configuration that is sent, and so
/// are the model's name, the voice and the agent.
pub proof fn law_session_update(s: &Settings, u: SessionUpdate)
    requires
        call_ensures(session_update, (s,), u),
    ensures
        s.instructions is Some ==> u.session.model is Some
            && u.session.model->0.instructions is Some && u.session.model->0.instructions->0@
            == s.instructions->0@,
        s.model_name is Some ==> u.session.model is Some && u.session.model->0.name is Some
            && u.session.model->0.name->0@ == s.model_name->0@,
        s.model_provider is Some ==> u.session.model is Some && u.session.model->0.provider is Some
            && u.session.model->0.provider->0@ == s.model_provider->0@,
        s.tools is Some ==> u.session.model is Some && u.session.model->0.tools is Some
            && u.session.model->0.tools->0@ == s.tools->0@,
        s.voice is Some ==> u.session.speech is Some && u.session.speech->0.voice is Some
            && u.session.speech->0.voice->0@ == s.voice->0@,
        s.agent_id is Some ==> u.session.agent_id is Some && u.session.agent_id->0@
            == s.agent_id->0@,
        configured(*s, u),
{
    law_settings_reach_the_server(*s, u);
}

} // verus!
