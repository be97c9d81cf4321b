//! What a session is configured with.

use vstd::prelude::*;

verus! {

/// A tool that the model may call: the JSON object that describes it.
#[derive(Debug)]
pub struct ToolDefinition {
    pub json: String,
}

impl Clone for ToolDefinition {
    fn clone(&self) -> (r: ToolDefinition)
        ensures
            r == *self,
    {
        ToolDefinition { json: self.json.clone() }
    }
}

/// How many tokens a response may take.
#[derive(Debug, Clone, Copy, PartialEq, Eq, Structural)]
pub enum MaxOutputTokens {
    Num(u32),
    Unlimited,
}

/// The encoding of audio samples.
#[derive(Debug, Clone, Copy, PartialEq, Eq, Structural)]
pub enum AudioFormat {
    PCM16,
    G711ULAW,
    G711ALAW,
}

/// How the end of a turn is told.
#[derive(Debug, Clone, Copy, PartialEq, Eq, Structural)]
pub enum TurnDetection {
    /// By the server. The threshold is given by the bits of a 32-bit floating
    /// point number.
    ServerVAD { threshold_bits: u32, prefix_padding_ms: u32, silence_duration_ms: u32 },
}

/// The model of a session. The temperature is given by the bits of a 32-bit
/// floating point number.
#[derive(Debug)]
pub struct Model {
    pub name: Option<String>,
    pub tools: Option<Vec<ToolDefinition>>,
    pub provider: Option<String>,
    pub modalities: Option<Vec<String>>,
    pub temperature_bits: Option<u32>,
    pub instructions: Option<String>,
    pub max_response_output_tokens: Option<MaxOutputTokens>,
}

/// What each entry of an optional list is.
pub open spec fn entries<T>(list: Option<Vec<T>>) -> Option<Seq<T>> {
    match list {
        Some(list) => Some(list@),
        None => None,
    }
}

impl Model {
    /// Whether two models are the same.
    pub open spec fn same(self, other: Model) -> bool {
        &&& self.name == other.name
        &&& entries(self.tools) == entries(other.tools)
        &&& self.provider == other.provider
        &&& entries(self.modalities) == entries(other.modalities)
        &&& self.temperature_bits == other.temperature_bits
        &&& self.instructions == other.instructions
        &&& self.max_response_output_tokens == other.max_response_output_tokens
    }
}

impl Clone for Model {
    fn clone(&self) -> (r: Model)
        ensures
            r.same(*self),
    {
        let tools: Option<Vec<ToolDefinition>> = match &self.tools {
            Some(list) => {
                let copy: Vec<ToolDefinition> = list.clone();
                assert(copy@ =~= list@);
                Some(copy)
            },
            None => None,
        };
        let modalities: Option<Vec<String>> = match &self.modalities {
            Some(list) => {
                let copy: Vec<String> = list.clone();
                assert(copy@ =~= list@);
                Some(copy)
            },
            None => None,
        };
        Model {
            name: self.name.clone(),
            tools,
            provider: self.provider.clone(),
            modalities,
            temperature_bits: self.temperature_bits,
            instructions: self.instructions.clone(),
            max_response_output_tokens: self.max_response_output_tokens,
        }
    }
}

/// What a session hears.
#[derive(Debug)]
pub struct Hearing {
    pub turn_detection: Option<TurnDetection>,
    pub input_audio_format: Option<AudioFormat>,
}

impl Clone for Hearing {
    fn clone(&self) -> (r: Hearing)
        ensures
            r == *self,
    {
        Hearing {
            turn_detection: self.turn_detection,
            input_audio_format: self.input_audio_format,
        }
    }
}

/// How a session speaks.
#[derive(Debug)]
pub struct Speech {
    pub voice: Option<String>,
    pub output_audio_format: Option<AudioFormat>,
}

impl Clone for Speech {
    fn clone(&self) -> (r: Speech)
        ensures
            r == *self,
    {
        Speech { voice: self.voice.clone(), output_audio_format: self.output_audio_format }
    }
}

/// A script of a session's knowledge.
#[derive(Debug)]
pub struct KnowledgeScript {
    pub id: String,
}

impl Clone for KnowledgeScript {
    fn clone(&self) -> (r: KnowledgeScript)
        ensures
            r == *self,
    {
        KnowledgeScript { id: self.id.clone() }
    }
}

/// What a session knows.
#[derive(Debug)]
pub struct Knowledge {
    pub scripts: Vec<KnowledgeScript>,
}

impl Clone for Knowledge {
    fn clone(&self) -> (r: Knowledge)
        ensures
            r.scripts@ == self.scripts@,
    {
        let scripts: Vec<KnowledgeScript> = self.scripts.clone();
        assert(scripts@ =~= self.scripts@);
        Knowledge { scripts }
    }
}

/// What a session sees.
#[derive(Debug)]
pub struct Vision {
    pub enable_face_detection: bool,
    pub enable_face_identification: bool,
    pub enable_object_detection: bool,
    pub object_detection_target_classes: Vec<String>,
}

impl Vision {
    /// Whether two configurations say the same.
    pub open spec fn same(self, other: Vision) -> bool {
        &&& self.enable_face_detection == other.enable_face_detection
        &&& self.enable_face_identification == other.enable_face_identification
        &&& self.enable_object_detection == other.enable_object_detection
        &&& self.object_detection_target_classes@ == other.object_detection_target_classes@
    }
}

impl Clone for Vision {
    fn clone(&self) -> (r: Vision)
        ensures
            r.same(*self),
    {
        let classes: Vec<String> = self.object_detection_target_classes.clone();
        assert(classes@ =~= self.object_detection_target_classes@);
        Vision {
            enable_face_detection: self.enable_face_detection,
            enable_face_identification: self.enable_face_identification,
            enable_object_detection: self.enable_object_detection,
            object_detection_target_classes: classes,
        }
    }
}

/// The configuration of a session.
#[derive(Debug)]
pub struct Session {
    pub agent_id: Option<String>,
    pub model: Option<Model>,
    pub hearing: Option<Hearing>,
    pub speech: Option<Speech>,
    pub knowledge: Option<Knowledge>,
    pub vision: Option<Vision>,
}

/// Whether two optional values are both absent, or both there and the same.
pub open spec fn both<T>(a: Option<T>, b: Option<T>, same: spec_fn(T, T) -> bool) -> bool {
    match (a, b) {
        (Some(a), Some(b)) => same(a, b),
        (None, None) => true,
        _ => false,
    }
}

impl Session {
    /// Whether two configurations say the same.
    pub open spec fn same(self, other: Session) -> bool {
        &&& self.agent_id == other.agent_id
        &&& both(self.model, other.model, |a: Model, b: Model| a.same(b))
        &&& self.hearing == other.hearing
        &&& self.speech == other.speech
        &&& both(
            self.knowledge,
            other.knowledge,
            |a: Knowledge, b: Knowledge| a.scripts@ == b.scripts@,
        )
        &&& both(self.vision, other.vision, |a: Vision, b: Vision| a.same(b))
    }
}

impl Clone for Session {
    fn clone(&self) -> (r: Session)
        ensures
            r.same(*self),
    {
        Session {
            agent_id: self.agent_id.clone(),
            model: match &self.model {
                Some(model) => Some(model.clone()),
                None => None,
            },
            hearing: match &self.hearing {
                Some(hearing) => Some(hearing.clone()),
                None => None,
            },
            speech: match &self.speech {
                Some(speech) => Some(speech.clone()),
                None => None,
            },
            knowledge: match &self.knowledge {
                Some(knowledge) => Some(knowledge.clone()),
                None => None,
            },
            vision: match &self.vision {
                Some(vision) => Some(vision.clone()),
                None => None,
            },
        }
    }
}

impl Default for Session {
    fn default() -> (r: Session)
        ensures
            r == (Session {
                agent_id: None,
                model: None,
                hearing: None,
                speech: None,
                knowledge: None,
                vision: None,
            }),
    {
        Session {
            agent_id: None,
            model: None,
            hearing: None,
            speech: None,
            knowledge: None,
            vision: None,
        }
    }
}

/// A part of a conversation item.
#[derive(Debug)]
pub struct ItemContent {
    pub kind: String,
    pub text: Option<String>,
    pub audio: Option<String>,
    pub transcript: Option<String>,
}

impl Clone for ItemContent {
    fn clone(&self) -> (r: ItemContent)
        ensures
            r == *self,
    {
        ItemContent {
            kind: self.kind.clone(),
            text: self.text.clone(),
            audio: self.audio.clone(),
            transcript: self.transcript.clone(),
        }
    }
}

/// An item of a conversation.
#[derive(Debug)]
pub struct Item {
    pub id: Option<String>,
    pub kind: Option<String>,
    pub status: Option<String>,
    pub role: Option<String>,
    pub content: Option<Vec<ItemContent>>,
    pub call_id: Option<String>,
    pub name: Option<String>,
    pub arguments: Option<String>,
    pub output: Option<String>,
}

impl Item {
    /// Whether two items are the same.
    pub open spec fn same(self, other: Item) -> bool {
        &&& self.id == other.id
        &&& self.kind == other.kind
        &&& self.status == other.status
        &&& self.role == other.role
        &&& entries(self.content) == entries(other.content)
        &&& self.call_id == other.call_id
        &&& self.name == other.name
        &&& self.arguments == other.arguments
        &&& self.output == other.output
    }
}

impl Clone for Item {
    fn clone(&self) -> (r: Item)
        ensures
            r.same(*self),
    {
        let content: Option<Vec<ItemContent>> = match &self.content {
            Some(list) => {
                let copy: Vec<ItemContent> = list.clone();
                assert(copy@ =~= list@);
                Some(copy)
            },
            None => None,
        };
        Item {
            id: self.id.clone(),
            kind: self.kind.clone(),
            status: self.status.clone(),
            role: self.role.clone(),
            content,
            call_id: self.call_id.clone(),
            name: self.name.clone(),
            arguments: self.arguments.clone(),
            output: self.output.clone(),
        }
    }
}

impl Default for Item {
    fn default() -> (r: Item)
        ensures
            r == (Item {
                id: None,
                kind: None,
                status: None,
                role: None,
                content: None,
                call_id: None,
                name: None,
                arguments: None,
                output: None,
            }),
    {
        Item {
            id: None,
            kind: None,
            status: None,
            role: None,
            content: None,
            call_id: None,
            name: None,
            arguments: None,
            output: None,
        }
    }
}

/// Models, visions, sessions and items are the same only if they agree in every
/// part.
pub proof fn law_same_in_every_part(
    m: Model,
    n: Model,
    v: Vision,
    w: Vision,
    s: Session,
    t: Session,
    i: Item,
    j: Item,
)
    ensures
        m.same(n) ==> {
            &&& m.name == n.name
            &&& m.provider == n.provider
            &&& m.instructions == n.instructions
            &&& m.temperature_bits == n.temperature_bits
            &&& m.max_response_output_tokens == n.max_response_output_tokens
            &&& m.tools is Some <==> n.tools is Some
            &&& m.tools is Some ==> m.tools->0@ == n.tools->0@
            &&& m.modalities is Some <==> n.modalities is Some
            &&& m.modalities is Some ==> m.modalities->0@ == n.modalities->0@
        },
        v.same(w) ==> {
            &&& v.enable_face_detection == w.enable_face_detection
            &&& v.enable_face_identification == w.enable_face_identification
            &&& v.enable_object_detection == w.enable_object_detection
            &&& v.object_detection_target_classes@ == w.object_detection_target_classes@
        },
        s.same(t) ==> {
            &&& s.agent_id == t.agent_id
            &&& s.hearing == t.hearing
            &&& s.speech == t.speech
            &&& s.model is Some <==> t.model is Some
            &&& s.model is Some ==> s.model->0.same(t.model->0)
            &&& s.knowledge is Some <==> t.knowledge is Some
            &&& s.knowledge is Some ==> s.knowledge->0.scripts@ == t.knowledge->0.scripts@
            &&& s.vision is Some <==> t.vision is Some
            &&& s.vision is Some ==> s.vision->0.same(t.vision->0)
        },
        i.same(j) ==> {
            &&& i.id == j.id
            &&& i.kind == j.kind
            &&& i.status == j.status
            &&& i.role == j.role
            &&& i.content is Some <==> j.content is Some
            &&& i.content is Some ==> i.content->0@ == j.content->0@
            &&& i.call_id == j.call_id
            &&& i.name == j.name
            &&& i.arguments == j.arguments
            &&& i.output == j.output
        },
{
}

} // verus!
