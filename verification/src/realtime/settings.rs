//! The settings of the realtime element, and its properties.

use vstd::prelude::*;

use crate::clock::{ClockTime, NS_PER_MS};
use crate::realtime::types::{entries, ToolDefinition};
use crate::text::{join_list, joined, list_entries, opt_text, same_text, split_list, texts};

verus! {

pub const DEFAULT_BUFFER_TIME_MS: u32 = 500;

/// The bits of 0.09 as a 32-bit floating point number.
pub const DEFAULT_VAD_THRESHOLD_BITS: u32 = 0x3db8_51ec;

pub const DEFAULT_VAD_PREFIX_PADDING_MS: u32 = 300;

pub const DEFAULT_VAD_SILENCE_DURATION_MS: u32 = 520;

pub const DEFAULT_VAD_MIN_AUDIO_DURATION_MS: u32 = 800;

pub const DEFAULT_RECONNECT_ATTEMPTS: u32 = 3;

pub const DEFAULT_RECONNECT_DELAY_MS: u64 = 5000;

pub const DEFAULT_CONNECTION_TIMEOUT_MS: u64 = 5000;

/// The settings of the realtime element. The threshold is given by the bits
/// of a 32-bit floating point number.
#[derive(Debug)]
pub struct Settings {
    pub url: Option<String>,
    pub api_key: Option<String>,
    pub agent_id: Option<String>,
    pub buffer_time_ms: u32,
    pub voice: Option<String>,
    pub model_name: Option<String>,
    pub model_provider: Option<String>,
    pub instructions: Option<String>,
    pub server_vad: bool,
    pub vad_threshold_bits: u32,
    pub vad_silence_duration_ms: u32,
    pub vad_min_audio_duration: ClockTime,
    pub executor_addr: Option<String>,
    pub knowledge_scripts: Vec<String>,
    pub tools: Option<Vec<ToolDefinition>>,
    pub reconnect_attempts: u32,
    pub reconnect_delay_ms: u64,
    pub connection_timeout_ms: u64,
    pub vision_enable_face_detection: bool,
    pub vision_enable_face_identification: bool,
    pub vision_enable_object_detection: bool,
    pub vision_object_detection_classes: Vec<String>,
}

/// A property of the realtime element.
#[derive(Debug, Clone, Copy, PartialEq, Eq, Structural)]
pub enum Property {
    Url,
    ApiKey,
    AgentId,
    BufferTime,
    Voice,
    ModelName,
    ModelProvider,
    Instructions,
    ServerVad,
    VadThreshold,
    VadSilenceDuration,
    VadMinAudioDuration,
    ExecutorAddr,
    KnowledgeScripts,
    Tools,
    ReconnectAttempts,
    ReconnectDelayMs,
    ConnectionTimeoutMs,
    VisionEnableFaceDetection,
    VisionEnableFaceIdentification,
    VisionEnableObjectDetection,
    VisionObjectDetectionClasses,
}

/// The type of a property's value.
#[derive(Debug, Clone, Copy, PartialEq, Eq, Structural)]
pub enum PropertyKind {
    /// A text, or none.
    Text,
    /// A text that lists entries, separated by commas.
    List,
    /// A text that lists tools, in JSON.
    Tools,
    /// A 32-bit number.
    UInt,
    /// A 64-bit number.
    UInt64,
    /// Yes or no.
    Flag,
    /// A floating point number from 0 to 1.
    Fraction,
}

/// A property's value. A floating point number is given by its bits, and a
/// list of tools as read from JSON, `None` where it could not be read.
#[derive(Debug)]
pub enum PropertyValue {
    Text(Option<String>),
    UInt(u32),
    UInt64(u64),
    Flag(bool),
    FractionBits(u32),
    Tools(Option<Vec<ToolDefinition>>),
}

/// What a [`PropertyValue`] holds.
pub enum PropertyValueView {
    Text(Option<Seq<char>>),
    UInt(u32),
    UInt64(u64),
    Flag(bool),
    FractionBits(u32),
    Tools(Option<Seq<ToolDefinition>>),
}

impl View for PropertyValue {
    type V = PropertyValueView;

    open spec fn view(&self) -> PropertyValueView {
        match *self {
            PropertyValue::Text(text) => PropertyValueView::Text(opt_text(text)),
            PropertyValue::UInt(n) => PropertyValueView::UInt(n),
            PropertyValue::UInt64(n) => PropertyValueView::UInt64(n),
            PropertyValue::Flag(b) => PropertyValueView::Flag(b),
            PropertyValue::FractionBits(bits) => PropertyValueView::FractionBits(bits),
            PropertyValue::Tools(tools) => PropertyValueView::Tools(entries(tools)),
        }
    }
}

/// What the settings hold for one property.
pub enum Held {
    Text(Option<Seq<char>>),
    List(Seq<Seq<char>>),
    Tools(Option<Seq<ToolDefinition>>),
    Number(int),
    Duration(ClockTime),
    Flag(bool),
}

/// What a new element declares of one of its properties.
#[derive(Debug)]
pub struct PropertySpec {
    pub property: Property,
    /// What it is called where it is shown to users.
    pub nick: &'static str,
    /// What it is for, in words for users.
    pub blurb: &'static str,
    pub default: PropertyValue,
    /// Whether the property can change only until the element is ready.
    pub mutable_ready: bool,
}

impl Property {
    /// The name that the property goes by.
    pub open spec fn key(self) -> Seq<char> {
        match self {
            Property::Url => "url"@,
            Property::ApiKey => "api-key"@,
            Property::AgentId => "agent-id"@,
            Property::BufferTime => "buffer-time"@,
            Property::Voice => "voice"@,
            Property::ModelName => "model-name"@,
            Property::ModelProvider => "model-provider"@,
            Property::Instructions => "instructions"@,
            Property::ServerVad => "server-vad"@,
            Property::VadThreshold => "vad-threshold"@,
            Property::VadSilenceDuration => "vad-silence-duration"@,
            Property::VadMinAudioDuration => "vad-min-audio-duration"@,
            Property::ExecutorAddr => "executor-addr"@,
            Property::KnowledgeScripts => "knowledge-scripts"@,
            Property::Tools => "tools"@,
            Property::ReconnectAttempts => "reconnect-attempts"@,
            Property::ReconnectDelayMs => "reconnect-delay-ms"@,
            Property::ConnectionTimeoutMs => "connection-timeout-ms"@,
            Property::VisionEnableFaceDetection => "vision-enable-face-detection"@,
            Property::VisionEnableFaceIdentification => "vision-enable-face-identification"@,
            Property::VisionEnableObjectDetection => "vision-enable-object-detection"@,
            Property::VisionObjectDetectionClasses => "vision-object-detection-classes"@,
        }
    }

    /// What the property is called where it is shown to users.
    pub open spec fn label(self) -> Seq<char> {
        match self {
            Property::Url => "URL"@,
            Property::ApiKey => "API Key"@,
            Property::AgentId => "Agent ID"@,
            Property::BufferTime => "Buffer Time"@,
            Property::Voice => "Speech Voice"@,
            Property::ModelName => "Model Name"@,
            Property::ModelProvider => "Model Provider"@,
            Property::Instructions => "Model Instructions"@,
            Property::ServerVad => "Server VAD"@,
            Property::VadThreshold => "VAD Threshold"@,
            Property::VadSilenceDuration => "VAD Silence Duration"@,
            Property::VadMinAudioDuration => "VAD Min Audio Duration"@,
            Property::ExecutorAddr => "Executor TCP Address"@,
            Property::KnowledgeScripts => "Knowledge Scripts"@,
            Property::Tools => "Tools"@,
            Property::ReconnectAttempts => "Reconnect Attempts"@,
            Property::ReconnectDelayMs => "Reconnect Delay"@,
            Property::ConnectionTimeoutMs => "Connection Timeout"@,
            Property::VisionEnableFaceDetection => "Enable Face Detection"@,
            Property::VisionEnableFaceIdentification => "Enable Face Identification"@,
            Property::VisionEnableObjectDetection => "Enable Object Detection"@,
            Property::VisionObjectDetectionClasses => "Object Detection Classes"@,
        }
    }

    /// What the property is for, in words for users.
    pub open spec fn purpose(self) -> Seq<char> {
        match self {
            Property::Url => "URL of the OpenAI Realtime server"@,
            Property::ApiKey => "OpenAI API Key"@,
            Property::AgentId => "Agent ID"@,
            Property::BufferTime => "Amount of milliseconds audio to buffer"@,
            Property::Voice => "Speech Voice"@,
            Property::ModelName => "LLM model used to generate outputs"@,
            Property::ModelProvider => "The one who trained the LLM model"@,
            Property::Instructions => "The instructions to model"@,
            Property::ServerVad => "Enable/disable server vad"@,
            Property::VadThreshold => "Threshold of server VAD"@,
            Property::VadSilenceDuration => "Amount of milliseconds of silence to end a turn"@,
            Property::VadMinAudioDuration => "Minimum milliseconds of audio to commit"@,
            Property::ExecutorAddr => "TCP address of executor, such as 127.0.0.1:9999"@,
            Property::KnowledgeScripts => {
                "Knowledge scripts to run, if there are multiple, separate with ','"@
            },
            Property::Tools => "JSON string of tools configuration"@,
            Property::ReconnectAttempts => "Maximum number of reconnection attempts"@,
            Property::ReconnectDelayMs => "Delay between reconnection attempts in milliseconds"@,
            Property::ConnectionTimeoutMs => "Connection timeout in milliseconds"@,
            Property::VisionEnableFaceDetection => "Enable face detection in vision processing"@,
            Property::VisionEnableFaceIdentification => {
                "Enable face identification in vision processing"@
            },
            Property::VisionEnableObjectDetection => {
                "Enable object detection in vision processing"@
            },
            Property::VisionObjectDetectionClasses => {
                "Target classes for object detection, comma-separated list"@
            },
        }
    }

    /// The type of the property's value.
    pub open spec fn holds(self) -> PropertyKind {
        match self {
            Property::Url
            | Property::ApiKey
            | Property::AgentId
            | Property::Voice
            | Property::ModelName
            | Property::ModelProvider
            | Property::Instructions
            | Property::ExecutorAddr => PropertyKind::Text,
            Property::BufferTime
            | Property::VadSilenceDuration
            | Property::VadMinAudioDuration
            | Property::ReconnectAttempts => PropertyKind::UInt,
            Property::ServerVad
            | Property::VisionEnableFaceDetection
            | Property::VisionEnableFaceIdentification
            | Property::VisionEnableObjectDetection => PropertyKind::Flag,
            Property::VadThreshold => PropertyKind::Fraction,
            Property::KnowledgeScripts
            | Property::VisionObjectDetectionClasses => PropertyKind::List,
            Property::Tools => PropertyKind::Tools,
            Property::ReconnectDelayMs
            | Property::ConnectionTimeoutMs => PropertyKind::UInt64,
        }
    }

    /// Whether a value can be stored under the property.
    pub open spec fn accepts(self, value: PropertyValueView) -> bool {
        match self.holds() {
            PropertyKind::Text => value is Text,
            PropertyKind::List => value is Text && value->Text_0 is Some,
            PropertyKind::Tools => value is Tools,
            PropertyKind::UInt => value is UInt,
            PropertyKind::UInt64 => value is UInt64,
            PropertyKind::Flag => value is Flag,
            PropertyKind::Fraction => value is FractionBits,
        }
    }

    /// What is held after a value was stored over what was held before.
    pub open spec fn stored(self, value: PropertyValueView, before: Held) -> Held {
        match value {
            PropertyValueView::Text(text) => if self.holds() == PropertyKind::List {
                Held::List(list_entries(text->0))
            } else {
                Held::Text(text)
            },
            PropertyValueView::UInt(n) => if self == Property::VadMinAudioDuration {
                Held::Duration(ClockTime { ns: (n * NS_PER_MS) as u64 })
            } else {
                Held::Number(n as int)
            },
            PropertyValueView::UInt64(n) => Held::Number(n as int),
            PropertyValueView::Flag(b) => Held::Flag(b),
            PropertyValueView::FractionBits(bits) => Held::Number(bits as int),
            PropertyValueView::Tools(Some(list)) => Held::Tools(Some(list)),
            PropertyValueView::Tools(None) => before,
        }
    }

    /// The value that is read of what is held.
    pub open spec fn shown(self, held: Held) -> PropertyValueView {
        match held {
            Held::Text(text) => PropertyValueView::Text(text),
            Held::List(list) => PropertyValueView::Text(Some(joined(list, ','))),
            Held::Tools(tools) => PropertyValueView::Tools(tools),
            Held::Number(n) => match self.holds() {
                PropertyKind::UInt64 => PropertyValueView::UInt64(n as u64),
                PropertyKind::Fraction => PropertyValueView::FractionBits(n as u32),
                _ => PropertyValueView::UInt(n as u32),
            },
            Held::Duration(t) => PropertyValueView::UInt64(t.ns / NS_PER_MS),
            Held::Flag(b) => PropertyValueView::Flag(b),
        }
    }

    /// The property of the given name.
    pub fn from_name(name: &str) -> (r: Option<Property>)
        ensures
            match r {
                Some(p) => p.key() == name@,
                None => forall|p: Property| p.key() != name@,
            },
    {
        if same_text(name, "url") {
            Some(Property::Url)
        } else if same_text(name, "api-key") {
            Some(Property::ApiKey)
        } else if same_text(name, "agent-id") {
            Some(Property::AgentId)
        } else if same_text(name, "buffer-time") {
            Some(Property::BufferTime)
        } else if same_text(name, "voice") {
            Some(Property::Voice)
        } else if same_text(name, "model-name") {
            Some(Property::ModelName)
        } else if same_text(name, "model-provider") {
            Some(Property::ModelProvider)
        } else if same_text(name, "instructions") {
            Some(Property::Instructions)
        } else if same_text(name, "server-vad") {
            Some(Property::ServerVad)
        } else if same_text(name, "vad-threshold") {
            Some(Property::VadThreshold)
        } else if same_text(name, "vad-silence-duration") {
            Some(Property::VadSilenceDuration)
        } else if same_text(name, "vad-min-audio-duration") {
            Some(Property::VadMinAudioDuration)
        } else if same_text(name, "executor-addr") {
            Some(Property::ExecutorAddr)
        } else if same_text(name, "knowledge-scripts") {
            Some(Property::KnowledgeScripts)
        } else if same_text(name, "tools") {
            Some(Property::Tools)
        } else if same_text(name, "reconnect-attempts") {
            Some(Property::ReconnectAttempts)
        } else if same_text(name, "reconnect-delay-ms") {
            Some(Property::ReconnectDelayMs)
        } else if same_text(name, "connection-timeout-ms") {
            Some(Property::ConnectionTimeoutMs)
        } else if same_text(name, "vision-enable-face-detection") {
            Some(Property::VisionEnableFaceDetection)
        } else if same_text(name, "vision-enable-face-identification") {
            Some(Property::VisionEnableFaceIdentification)
        } else if same_text(name, "vision-enable-object-detection") {
            Some(Property::VisionEnableObjectDetection)
        } else if same_text(name, "vision-object-detection-classes") {
            Some(Property::VisionObjectDetectionClasses)
        } else {
            None
        }
    }

    /// The name that the property goes by.
    pub fn name(&self) -> (r: &'static str)
        ensures
            r@ == self.key(),
    {
        match self {
            Property::Url => "url",
            Property::ApiKey => "api-key",
            Property::AgentId => "agent-id",
            Property::BufferTime => "buffer-time",
            Property::Voice => "voice",
            Property::ModelName => "model-name",
            Property::ModelProvider => "model-provider",
            Property::Instructions => "instructions",
            Property::ServerVad => "server-vad",
            Property::VadThreshold => "vad-threshold",
            Property::VadSilenceDuration => "vad-silence-duration",
            Property::VadMinAudioDuration => "vad-min-audio-duration",
            Property::ExecutorAddr => "executor-addr",
            Property::KnowledgeScripts => "knowledge-scripts",
            Property::Tools => "tools",
            Property::ReconnectAttempts => "reconnect-attempts",
            Property::ReconnectDelayMs => "reconnect-delay-ms",
            Property::ConnectionTimeoutMs => "connection-timeout-ms",
            Property::VisionEnableFaceDetection => "vision-enable-face-detection",
            Property::VisionEnableFaceIdentification => "vision-enable-face-identification",
            Property::VisionEnableObjectDetection => "vision-enable-object-detection",
            Property::VisionObjectDetectionClasses => "vision-object-detection-classes",
        }
    }

    /// What the property is called where it is shown to users.
    pub fn nick(&self) -> (r: &'static str)
        ensures
            r@ == self.label(),
    {
        match self {
            Property::Url => "URL",
            Property::ApiKey => "API Key",
            Property::AgentId => "Agent ID",
            Property::BufferTime => "Buffer Time",
            Property::Voice => "Speech Voice",
            Property::ModelName => "Model Name",
            Property::ModelProvider => "Model Provider",
            Property::Instructions => "Model Instructions",
            Property::ServerVad => "Server VAD",
            Property::VadThreshold => "VAD Threshold",
            Property::VadSilenceDuration => "VAD Silence Duration",
            Property::VadMinAudioDuration => "VAD Min Audio Duration",
            Property::ExecutorAddr => "Executor TCP Address",
            Property::KnowledgeScripts => "Knowledge Scripts",
            Property::Tools => "Tools",
            Property::ReconnectAttempts => "Reconnect Attempts",
            Property::ReconnectDelayMs => "Reconnect Delay",
            Property::ConnectionTimeoutMs => "Connection Timeout",
            Property::VisionEnableFaceDetection => "Enable Face Detection",
            Property::VisionEnableFaceIdentification => "Enable Face Identification",
            Property::VisionEnableObjectDetection => "Enable Object Detection",
            Property::VisionObjectDetectionClasses => "Object Detection Classes",
        }
    }

    /// What the property is for, in words for users.
    pub fn blurb(&self) -> (r: &'static str)
        ensures
            r@ == self.purpose(),
    {
        match self {
            Property::Url => "URL of the OpenAI Realtime server",
            Property::ApiKey => "OpenAI API Key",
            Property::AgentId => "Agent ID",
            Property::BufferTime => "Amount of milliseconds audio to buffer",
            Property::Voice => "Speech Voice",
            Property::ModelName => "LLM model used to generate outputs",
            Property::ModelProvider => "The one who trained the LLM model",
            Property::Instructions => "The instructions to model",
            Property::ServerVad => "Enable/disable server vad",
            Property::VadThreshold => "Threshold of server VAD",
            Property::VadSilenceDuration => "Amount of milliseconds of silence to end a turn",
            Property::VadMinAudioDuration => "Minimum milliseconds of audio to commit",
            Property::ExecutorAddr => "TCP address of executor, such as 127.0.0.1:9999",
            Property::KnowledgeScripts => {
                "Knowledge scripts to run, if there are multiple, separate with ','"
            },
            Property::Tools => "JSON string of tools configuration",
            Property::ReconnectAttempts => "Maximum number of reconnection attempts",
            Property::ReconnectDelayMs => "Delay between reconnection attempts in milliseconds",
            Property::ConnectionTimeoutMs => "Connection timeout in milliseconds",
            Property::VisionEnableFaceDetection => "Enable face detection in vision processing",
            Property::VisionEnableFaceIdentification => {
                "Enable face identification in vision processing"
            },
            Property::VisionEnableObjectDetection => "Enable object detection in vision processing",
            Property::VisionObjectDetectionClasses => {
                "Target classes for object detection, comma-separated list"
            },
        }
    }

    /// The type of the property's value.
    pub fn kind(&self) -> (r: PropertyKind)
        ensures
            r == self.holds(),
    {
        match self {
            Property::Url
            | Property::ApiKey
            | Property::AgentId
            | Property::Voice
            | Property::ModelName
            | Property::ModelProvider
            | Property::Instructions
            | Property::ExecutorAddr => PropertyKind::Text,
            Property::BufferTime
            | Property::VadSilenceDuration
            | Property::VadMinAudioDuration
            | Property::ReconnectAttempts => PropertyKind::UInt,
            Property::ServerVad
            | Property::VisionEnableFaceDetection
            | Property::VisionEnableFaceIdentification
            | Property::VisionEnableObjectDetection => PropertyKind::Flag,
            Property::VadThreshold => PropertyKind::Fraction,
            Property::KnowledgeScripts
            | Property::VisionObjectDetectionClasses => PropertyKind::List,
            Property::Tools => PropertyKind::Tools,
            Property::ReconnectDelayMs
            | Property::ConnectionTimeoutMs => PropertyKind::UInt64,
        }
    }

    /// Whether a value can be stored under the property.
    pub fn takes(&self, value: &PropertyValue) -> (r: bool)
        ensures
            r == self.accepts(value@),
    {
        match (self.kind(), value) {
            (PropertyKind::Text, PropertyValue::Text(_)) => true,
            (PropertyKind::List, PropertyValue::Text(Some(_))) => true,
            (PropertyKind::Tools, PropertyValue::Tools(_)) => true,
            (PropertyKind::UInt, PropertyValue::UInt(_)) => true,
            (PropertyKind::UInt64, PropertyValue::UInt64(_)) => true,
            (PropertyKind::Flag, PropertyValue::Flag(_)) => true,
            (PropertyKind::Fraction, PropertyValue::FractionBits(_)) => true,
            _ => false,
        }
    }
}

impl Settings {
    /// What the settings hold for a property.
    pub open spec fn held(self, p: Property) -> Held {
        match p {
            Property::Url => Held::Text(opt_text(self.url)),
            Property::ApiKey => Held::Text(opt_text(self.api_key)),
            Property::AgentId => Held::Text(opt_text(self.agent_id)),
            Property::BufferTime => Held::Number(self.buffer_time_ms as int),
            Property::Voice => Held::Text(opt_text(self.voice)),
            Property::ModelName => Held::Text(opt_text(self.model_name)),
            Property::ModelProvider => Held::Text(opt_text(self.model_provider)),
            Property::Instructions => Held::Text(opt_text(self.instructions)),
            Property::ServerVad => Held::Flag(self.server_vad),
            Property::VadThreshold => Held::Number(self.vad_threshold_bits as int),
            Property::VadSilenceDuration => Held::Number(self.vad_silence_duration_ms as int),
            Property::VadMinAudioDuration => Held::Duration(self.vad_min_audio_duration),
            Property::ExecutorAddr => Held::Text(opt_text(self.executor_addr)),
            Property::KnowledgeScripts => Held::List(texts(self.knowledge_scripts@)),
            Property::Tools => Held::Tools(entries(self.tools)),
            Property::ReconnectAttempts => Held::Number(self.reconnect_attempts as int),
            Property::ReconnectDelayMs => Held::Number(self.reconnect_delay_ms as int),
            Property::ConnectionTimeoutMs => Held::Number(self.connection_timeout_ms as int),
            Property::VisionEnableFaceDetection => Held::Flag(self.vision_enable_face_detection),
            Property::VisionEnableFaceIdentification => Held::Flag(
                self.vision_enable_face_identification,
            ),
            Property::VisionEnableObjectDetection => Held::Flag(
                self.vision_enable_object_detection,
            ),
            Property::VisionObjectDetectionClasses => Held::List(
                texts(self.vision_object_detection_classes@),
            ),
        }
    }

    /// Whether `after` is `before` with a value stored under a property, and
    /// with every other property as it was.
    pub open spec fn written(
        before: Settings,
        after: Settings,
        p: Property,
        value: PropertyValueView,
    ) -> bool {
        forall|q: Property|
            #[trigger] after.held(q) == if q == p {
                p.stored(value, before.held(p))
            } else {
                before.held(q)
            }
    }

    /// Stores a value under a property. Tools that could not be read leave
    /// those held before in place.
    pub fn set_property(&mut self, p: Property, value: PropertyValue)
        requires
            p.accepts(value@),
        ensures
            Self::written(*old(self), *final(self), p, value@),
    {
        match (p, value) {
            (Property::Url, PropertyValue::Text(text)) => self.url = text,
            (Property::ApiKey, PropertyValue::Text(text)) => self.api_key = text,
            (Property::AgentId, PropertyValue::Text(text)) => self.agent_id = text,
            (Property::BufferTime, PropertyValue::UInt(n)) => self.buffer_time_ms = n,
            (Property::Voice, PropertyValue::Text(text)) => self.voice = text,
            (Property::ModelName, PropertyValue::Text(text)) => self.model_name = text,
            (Property::ModelProvider, PropertyValue::Text(text)) => self.model_provider = text,
            (Property::Instructions, PropertyValue::Text(text)) => self.instructions = text,
            (Property::ServerVad, PropertyValue::Flag(b)) => {
                self.server_vad = b;
            },
            (Property::VadThreshold, PropertyValue::FractionBits(bits)) => {
                self.vad_threshold_bits = bits;
            },
            (Property::VadSilenceDuration, PropertyValue::UInt(n)) => {
                self.vad_silence_duration_ms = n;
            },
            (Property::VadMinAudioDuration, PropertyValue::UInt(n)) => {
                self.vad_min_audio_duration = ClockTime::from_mseconds(n as u64);
            },
            (Property::ExecutorAddr, PropertyValue::Text(text)) => self.executor_addr = text,
            (Property::KnowledgeScripts, PropertyValue::Text(Some(text))) => {
                self.knowledge_scripts = split_list(text.as_str());
            },
            (Property::Tools, PropertyValue::Tools(Some(tools))) => self.tools = Some(tools),
            (Property::ReconnectAttempts, PropertyValue::UInt(n)) => self.reconnect_attempts = n,
            (Property::ReconnectDelayMs, PropertyValue::UInt64(n)) => self.reconnect_delay_ms = n,
            (Property::ConnectionTimeoutMs, PropertyValue::UInt64(n)) => {
                self.connection_timeout_ms = n;
            },
            (Property::VisionEnableFaceDetection, PropertyValue::Flag(b)) => {
                self.vision_enable_face_detection = b;
            },
            (Property::VisionEnableFaceIdentification, PropertyValue::Flag(b)) => {
                self.vision_enable_face_identification = b;
            },
            (Property::VisionEnableObjectDetection, PropertyValue::Flag(b)) => {
                self.vision_enable_object_detection = b;
            },
            (Property::VisionObjectDetectionClasses, PropertyValue::Text(Some(text))) => {
                self.vision_object_detection_classes = split_list(text.as_str());
            },
            _ => {},
        }
    }

    /// Reads a property.
    pub fn property(&self, p: Property) -> (r: PropertyValue)
        ensures
            r@ == p.shown(self.held(p)),
    {
        match p {
            Property::Url => PropertyValue::Text(self.url.clone()),
            Property::ApiKey => PropertyValue::Text(self.api_key.clone()),
            Property::AgentId => PropertyValue::Text(self.agent_id.clone()),
            Property::BufferTime => PropertyValue::UInt(self.buffer_time_ms),
            Property::Voice => PropertyValue::Text(self.voice.clone()),
            Property::ModelName => PropertyValue::Text(self.model_name.clone()),
            Property::ModelProvider => PropertyValue::Text(self.model_provider.clone()),
            Property::Instructions => PropertyValue::Text(self.instructions.clone()),
            Property::ServerVad => PropertyValue::Flag(self.server_vad),
            Property::VadThreshold => PropertyValue::FractionBits(self.vad_threshold_bits),
            Property::VadSilenceDuration => PropertyValue::UInt(self.vad_silence_duration_ms),
            Property::VadMinAudioDuration => PropertyValue::UInt64(
                self.vad_min_audio_duration.mseconds(),
            ),
            Property::ExecutorAddr => PropertyValue::Text(self.executor_addr.clone()),
            Property::KnowledgeScripts => PropertyValue::Text(
                Some(join_list(&self.knowledge_scripts)),
            ),
            Property::Tools => PropertyValue::Tools(clone_tools(&self.tools)),
            Property::ReconnectAttempts => PropertyValue::UInt(self.reconnect_attempts),
            Property::ReconnectDelayMs => PropertyValue::UInt64(self.reconnect_delay_ms),
            Property::ConnectionTimeoutMs => PropertyValue::UInt64(self.connection_timeout_ms),
            Property::VisionEnableFaceDetection => PropertyValue::Flag(
                self.vision_enable_face_detection,
            ),
            Property::VisionEnableFaceIdentification => PropertyValue::Flag(
                self.vision_enable_face_identification,
            ),
            Property::VisionEnableObjectDetection => PropertyValue::Flag(
                self.vision_enable_object_detection,
            ),
            Property::VisionObjectDetectionClasses => PropertyValue::Text(
                Some(join_list(&self.vision_object_detection_classes)),
            ),
        }
    }
}

/// A copy of an optional list of tools.
pub fn clone_tools(tools: &Option<Vec<ToolDefinition>>) -> (r: Option<Vec<ToolDefinition>>)
    ensures
        entries(r) == entries(*tools),
{
    match tools {
        Some(list) => {
            let copy: Vec<ToolDefinition> = list.clone();
            assert(copy@ =~= list@);
            Some(copy)
        },
        None => None,
    }
}

/// The address that a new element connects to.
pub open spec fn default_url() -> Seq<char> {
    "wss://openai-realtime-ws.ticos.ai"@
}

/// What a new element holds for each property.
pub open spec fn default_held(p: Property) -> Held {
    match p {
        Property::Url => Held::Text(Some(default_url())),
        Property::BufferTime => Held::Number(DEFAULT_BUFFER_TIME_MS as int),
        Property::VadThreshold => Held::Number(DEFAULT_VAD_THRESHOLD_BITS as int),
        Property::VadSilenceDuration => Held::Number(DEFAULT_VAD_SILENCE_DURATION_MS as int),
        Property::VadMinAudioDuration => Held::Duration(
            ClockTime { ns: (DEFAULT_VAD_MIN_AUDIO_DURATION_MS * NS_PER_MS) as u64 },
        ),
        Property::ReconnectAttempts => Held::Number(DEFAULT_RECONNECT_ATTEMPTS as int),
        Property::ReconnectDelayMs => Held::Number(DEFAULT_RECONNECT_DELAY_MS as int),
        Property::ConnectionTimeoutMs => Held::Number(DEFAULT_CONNECTION_TIMEOUT_MS as int),
        _ => match p.holds() {
            PropertyKind::List => Held::List(Seq::empty()),
            PropertyKind::Tools => Held::Tools(None),
            PropertyKind::Flag => Held::Flag(false),
            _ => Held::Text(None),
        },
    }
}

impl Default for Settings {
    fn default() -> (r: Settings)
        ensures
            forall|p: Property| #[trigger] r.held(p) == default_held(p),
    {
        let r = Settings {
            url: Some("wss://openai-realtime-ws.ticos.ai".to_string()),
            api_key: None,
            agent_id: None,
            buffer_time_ms: DEFAULT_BUFFER_TIME_MS,
            voice: None,
            model_name: None,
            model_provider: None,
            instructions: None,
            server_vad: false,
            vad_threshold_bits: DEFAULT_VAD_THRESHOLD_BITS,
            vad_silence_duration_ms: DEFAULT_VAD_SILENCE_DURATION_MS,
            vad_min_audio_duration: ClockTime::from_mseconds(
                DEFAULT_VAD_MIN_AUDIO_DURATION_MS as u64,
            ),
            executor_addr: None,
            knowledge_scripts: Vec::new(),
            tools: None,
            reconnect_attempts: DEFAULT_RECONNECT_ATTEMPTS,
            reconnect_delay_ms: DEFAULT_RECONNECT_DELAY_MS,
            connection_timeout_ms: DEFAULT_CONNECTION_TIMEOUT_MS,
            vision_enable_face_detection: false,
            vision_enable_face_identification: false,
            vision_enable_object_detection: false,
            vision_object_detection_classes: Vec::new(),
        };
        assert(texts(r.knowledge_scripts@) =~= Seq::<Seq<char>>::empty());
        assert(texts(r.vision_object_detection_classes@) =~= Seq::<Seq<char>>::empty());
        r
    }
}

/// All properties, in the order in which they are declared.
pub open spec fn all_properties() -> Seq<Property> {
    seq![
        Property::Url,
        Property::ApiKey,
        Property::AgentId,
        Property::BufferTime,
        Property::Voice,
        Property::ModelName,
        Property::ModelProvider,
        Property::Instructions,
        Property::ServerVad,
        Property::VadThreshold,
        Property::VadSilenceDuration,
        Property::VadMinAudioDuration,
        Property::ExecutorAddr,
        Property::KnowledgeScripts,
        Property::Tools,
        Property::ReconnectAttempts,
        Property::ReconnectDelayMs,
        Property::ConnectionTimeoutMs,
        Property::VisionEnableFaceDetection,
        Property::VisionEnableFaceIdentification,
        Property::VisionEnableObjectDetection,
        Property::VisionObjectDetectionClasses,
    ]
}

/// The default that a property is declared with.
pub open spec fn declared_default(p: Property) -> PropertyValueView {
    match p {
        Property::Url => PropertyValueView::Text(Some("ws://0.0.0.0:9000"@)),
        Property::BufferTime => PropertyValueView::UInt(DEFAULT_BUFFER_TIME_MS),
        Property::VadThreshold => PropertyValueView::FractionBits(DEFAULT_VAD_THRESHOLD_BITS),
        Property::VadSilenceDuration => PropertyValueView::UInt(DEFAULT_VAD_SILENCE_DURATION_MS),
        Property::VadMinAudioDuration => PropertyValueView::UInt(
            DEFAULT_VAD_MIN_AUDIO_DURATION_MS,
        ),
        Property::ReconnectAttempts => PropertyValueView::UInt(DEFAULT_RECONNECT_ATTEMPTS),
        Property::ReconnectDelayMs => PropertyValueView::UInt64(DEFAULT_RECONNECT_DELAY_MS),
        Property::ConnectionTimeoutMs => PropertyValueView::UInt64(DEFAULT_CONNECTION_TIMEOUT_MS),
        _ => match p.holds() {
            PropertyKind::Tools => PropertyValueView::Tools(None),
            PropertyKind::Flag => PropertyValueView::Flag(false),
            _ => PropertyValueView::Text(None),
        },
    }
}

/// Whether a declaration is the one of its property.
pub open spec fn declares(spec: PropertySpec, p: Property) -> bool {
    &&& spec.property == p
    &&& spec.nick@ == p.label()
    &&& spec.blurb@ == p.purpose()
    &&& spec.default@ == declared_default(p)
    &&& spec.mutable_ready == (p == Property::ApiKey || p == Property::AgentId)
}

impl PropertySpec {
    /// The declaration of a property.
    pub fn of(p: Property) -> (r: PropertySpec)
        ensures
            declares(r, p),
    {
        let default: PropertyValue = match p {
            Property::Url => PropertyValue::Text(Some("ws://0.0.0.0:9000".to_string())),
            Property::BufferTime => PropertyValue::UInt(DEFAULT_BUFFER_TIME_MS),
            Property::VadThreshold => PropertyValue::FractionBits(DEFAULT_VAD_THRESHOLD_BITS),
            Property::VadSilenceDuration => PropertyValue::UInt(DEFAULT_VAD_SILENCE_DURATION_MS),
            Property::VadMinAudioDuration => PropertyValue::UInt(DEFAULT_VAD_MIN_AUDIO_DURATION_MS),
            Property::ReconnectAttempts => PropertyValue::UInt(DEFAULT_RECONNECT_ATTEMPTS),
            Property::ReconnectDelayMs => PropertyValue::UInt64(DEFAULT_RECONNECT_DELAY_MS),
            Property::ConnectionTimeoutMs => PropertyValue::UInt64(DEFAULT_CONNECTION_TIMEOUT_MS),
            _ => match p.kind() {
                PropertyKind::Tools => PropertyValue::Tools(None),
                PropertyKind::Flag => PropertyValue::Flag(false),
                _ => PropertyValue::Text(None),
            },
        };
        let mutable_ready: bool = match p {
            Property::ApiKey | Property::AgentId => true,
            _ => false,
        };
        PropertySpec { property: p, nick: p.nick(), blurb: p.blurb(), default, mutable_ready }
    }
}

/// The declarations of all properties.
pub fn properties() -> (r: Vec<PropertySpec>)
    ensures
        r@.len() == all_properties().len(),
        forall|i: int| 0 <= i < r@.len() ==> declares(#[trigger] r@[i], all_properties()[i]),
{
    let order = [
        Property::Url,
        Property::ApiKey,
        Property::AgentId,
        Property::BufferTime,
        Property::Voice,
        Property::ModelName,
        Property::ModelProvider,
        Property::Instructions,
        Property::ServerVad,
        Property::VadThreshold,
        Property::VadSilenceDuration,
        Property::VadMinAudioDuration,
        Property::ExecutorAddr,
        Property::KnowledgeScripts,
        Property::Tools,
        Property::ReconnectAttempts,
        Property::ReconnectDelayMs,
        Property::ConnectionTimeoutMs,
        Property::VisionEnableFaceDetection,
        Property::VisionEnableFaceIdentification,
        Property::VisionEnableObjectDetection,
        Property::VisionObjectDetectionClasses,
    ];
    let mut list: Vec<PropertySpec> = Vec::new();
    let mut i: usize = 0;
    assert(order@ =~= all_properties());
    while i < order.len()
        invariant
            order@ == all_properties(),
            i <= order@.len(),
            list@.len() == i,
            forall|j: int| 0 <= j < i ==> declares(#[trigger] list@[j], all_properties()[j]),
        decreases order@.len() - i,
    {
        list.push(PropertySpec::of(order[i]));
        i = i + 1;
    }
    list
}

/// Every property is declared, and none twice.
pub proof fn law_properties_complete(p: Property)
    ensures
        exists|i: int| 0 <= i < all_properties().len() && #[trigger] all_properties()[i] == p,
        forall|i: int, j: int|
            0 <= i < j < all_properties().len() ==> all_properties()[i] != all_properties()[j],
{
    let all = all_properties();
    assert(all[0] == Property::Url);
    assert(all[1] == Property::ApiKey);
    assert(all[2] == Property::AgentId);
    assert(all[3] == Property::BufferTime);
    assert(all[4] == Property::Voice);
    assert(all[5] == Property::ModelName);
    assert(all[6] == Property::ModelProvider);
    assert(all[7] == Property::Instructions);
    assert(all[8] == Property::ServerVad);
    assert(all[9] == Property::VadThreshold);
    assert(all[10] == Property::VadSilenceDuration);
    assert(all[11] == Property::VadMinAudioDuration);
    assert(all[12] == Property::ExecutorAddr);
    assert(all[13] == Property::KnowledgeScripts);
    assert(all[14] == Property::Tools);
    assert(all[15] == Property::ReconnectAttempts);
    assert(all[16] == Property::ReconnectDelayMs);
    assert(all[17] == Property::ConnectionTimeoutMs);
    assert(all[18] == Property::VisionEnableFaceDetection);
    assert(all[19] == Property::VisionEnableFaceIdentification);
    assert(all[20] == Property::VisionEnableObjectDetection);
    assert(all[21] == Property::VisionObjectDetectionClasses);
}

/// No two properties go by the same name.
pub proof fn law_property_names_distinct(p: Property, q: Property)
    ensures
        p.key() == q.key() ==> p == q,
{
    reveal_strlit("url");
    reveal_strlit("api-key");
    reveal_strlit("agent-id");
    reveal_strlit("buffer-time");
    reveal_strlit("voice");
    reveal_strlit("model-name");
    reveal_strlit("model-provider");
    reveal_strlit("instructions");
    reveal_strlit("server-vad");
    reveal_strlit("vad-threshold");
    reveal_strlit("vad-silence-duration");
    reveal_strlit("vad-min-audio-duration");
    reveal_strlit("executor-addr");
    reveal_strlit("knowledge-scripts");
    reveal_strlit("tools");
    reveal_strlit("reconnect-attempts");
    reveal_strlit("reconnect-delay-ms");
    reveal_strlit("connection-timeout-ms");
    reveal_strlit("vision-enable-face-detection");
    reveal_strlit("vision-enable-face-identification");
    reveal_strlit("vision-enable-object-detection");
    reveal_strlit("vision-object-detection-classes");
    if p.key() == q.key() {
        assert(p.key().len() == q.key().len());
        assert(p.key()[0] == q.key()[0]);
        assert(p.key()[10] == q.key()[10]);
    }
}

/// A stored value is read back as it was, where the property is not a list
/// and not the shortest audio, and the value is not tools that could not be
/// read.
pub proof fn law_read_after_write(p: Property, value: PropertyValueView, before: Held)
    requires
        p.accepts(value),
        p.holds() != PropertyKind::List,
        p != Property::VadMinAudioDuration,
        value != PropertyValueView::Tools(None),
    ensures
        p.shown(p.stored(value, before)) == value,
{
}

/// The shortest audio is read back as the number of milliseconds that was
/// stored.
pub proof fn law_min_audio_read_back(n: u32, before: Held)
    ensures
        Property::VadMinAudioDuration.shown(
            Property::VadMinAudioDuration.stored(PropertyValueView::UInt(n), before),
        ) == PropertyValueView::UInt64(n as u64),
{
    assert((n * NS_PER_MS) / NS_PER_MS as int == n);
}

/// Storing what was read of a list changes nothing, once a list was stored.
pub proof fn law_list_read_is_stable(p: Property, text: Seq<char>, before: Held)
    requires
        p.holds() == PropertyKind::List,
    ensures
        ({
            let held = p.stored(PropertyValueView::Text(Some(text)), before);
            p.stored(p.shown(held), held) == held
        }),
{
    crate::text::law_list_round_trip(text);
}

/// A new element holds the defaults that its properties are declared with,
/// but for the address, the lists, and the width in which the shortest audio
/// is read.
pub proof fn law_defaults_as_declared(p: Property)
    requires
        p != Property::Url,
        p != Property::VadMinAudioDuration,
        p.holds() != PropertyKind::List,
    ensures
        p.shown(default_held(p)) == declared_default(p),
{
}

/// What is written under a property is what the element works with from then
/// on, in the field that is meant and in no other: texts, numbers and flags as
/// they are, lists by their entries, the shortest audio in milliseconds, and
/// tools unless they could not be read.
pub proof fn law_writing_sets_what_is_meant(
    before: Settings,
    after: Settings,
    p: Property,
    value: PropertyValueView,
)
    requires
        p.accepts(value),
        Settings::written(before, after, p, value),
    ensures
        p == Property::Url ==> opt_text(after.url) == value->Text_0,
        p != Property::Url ==> opt_text(after.url) == opt_text(before.url),
        p == Property::ApiKey ==> opt_text(after.api_key) == value->Text_0,
        p != Property::ApiKey ==> opt_text(after.api_key) == opt_text(before.api_key),
        p == Property::AgentId ==> opt_text(after.agent_id) == value->Text_0,
        p != Property::AgentId ==> opt_text(after.agent_id) == opt_text(before.agent_id),
        p == Property::Voice ==> opt_text(after.voice) == value->Text_0,
        p != Property::Voice ==> opt_text(after.voice) == opt_text(before.voice),
        p == Property::ModelName ==> opt_text(after.model_name) == value->Text_0,
        p != Property::ModelName ==> opt_text(after.model_name) == opt_text(before.model_name),
        p == Property::ModelProvider ==> opt_text(after.model_provider) == value->Text_0,
        p != Property::ModelProvider ==> opt_text(after.model_provider)
            == opt_text(before.model_provider),
        p == Property::Instructions ==> opt_text(after.instructions) == value->Text_0,
        p != Property::Instructions ==> opt_text(after.instructions)
            == opt_text(before.instructions),
        p == Property::ExecutorAddr ==> opt_text(after.executor_addr) == value->Text_0,
        p != Property::ExecutorAddr ==> opt_text(after.executor_addr)
            == opt_text(before.executor_addr),
        p == Property::BufferTime ==> after.buffer_time_ms == value->UInt_0,
        p != Property::BufferTime ==> after.buffer_time_ms == before.buffer_time_ms,
        p == Property::VadSilenceDuration ==> after.vad_silence_duration_ms == value->UInt_0,
        p != Property::VadSilenceDuration ==> after.vad_silence_duration_ms
            == before.vad_silence_duration_ms,
        p == Property::ReconnectAttempts ==> after.reconnect_attempts == value->UInt_0,
        p != Property::ReconnectAttempts ==> after.reconnect_attempts == before.reconnect_attempts,
        p == Property::ReconnectDelayMs ==> after.reconnect_delay_ms == value->UInt64_0,
        p != Property::ReconnectDelayMs ==> after.reconnect_delay_ms == before.reconnect_delay_ms,
        p == Property::ConnectionTimeoutMs ==> after.connection_timeout_ms == value->UInt64_0,
        p != Property::ConnectionTimeoutMs ==> after.connection_timeout_ms
            == before.connection_timeout_ms,
        p == Property::ServerVad ==> after.server_vad == value->Flag_0,
        p != Property::ServerVad ==> after.server_vad == before.server_vad,
        p == Property::VisionEnableFaceDetection ==> after.vision_enable_face_detection
            == value->Flag_0,
        p != Property::VisionEnableFaceDetection ==> after.vision_enable_face_detection
            == before.vision_enable_face_detection,
        p == Property::VisionEnableFaceIdentification
            ==> after.vision_enable_face_identification == value->Flag_0,
        p != Property::VisionEnableFaceIdentification
            ==> after.vision_enable_face_identification == before.vision_enable_face_identification,
        p == Property::VisionEnableObjectDetection ==> after.vision_enable_object_detection
            == value->Flag_0,
        p != Property::VisionEnableObjectDetection ==> after.vision_enable_object_detection
            == before.vision_enable_object_detection,
        p == Property::KnowledgeScripts ==> texts(after.knowledge_scripts@) == list_entries(
            value->Text_0->0,
        ),
        p != Property::KnowledgeScripts ==> texts(after.knowledge_scripts@) == texts(
            before.knowledge_scripts@,
        ),
        p == Property::VisionObjectDetectionClasses
            ==> texts(after.vision_object_detection_classes@) == list_entries(
            value->Text_0->0,
        ),
        p != Property::VisionObjectDetectionClasses
            ==> texts(after.vision_object_detection_classes@) == texts(
            before.vision_object_detection_classes@,
        ),
        p == Property::VadThreshold ==> after.vad_threshold_bits == value->FractionBits_0,
        p != Property::VadThreshold ==> after.vad_threshold_bits == before.vad_threshold_bits,
        p == Property::VadMinAudioDuration ==> after.vad_min_audio_duration.ns == value->UInt_0
            * 1_000_000,
        p != Property::VadMinAudioDuration ==> after.vad_min_audio_duration
            == before.vad_min_audio_duration,
        p == Property::Tools && value->Tools_0 is Some ==> after.tools is Some && after.tools->0@
            == value->Tools_0->0,
        p != Property::Tools || value->Tools_0 is None ==> entries(after.tools) == entries(
            before.tools,
        ),
{
    assert(after.held(Property::Url) == if p == Property::Url {
        p.stored(value, before.held(p))
    } else {
        before.held(Property::Url)
    });
    assert(after.held(Property::ApiKey) == if p == Property::ApiKey {
        p.stored(value, before.held(p))
    } else {
        before.held(Property::ApiKey)
    });
    assert(after.held(Property::AgentId) == if p == Property::AgentId {
        p.stored(value, before.held(p))
    } else {
        before.held(Property::AgentId)
    });
    assert(after.held(Property::BufferTime) == if p == Property::BufferTime {
        p.stored(value, before.held(p))
    } else {
        before.held(Property::BufferTime)
    });
    assert(after.held(Property::Voice) == if p == Property::Voice {
        p.stored(value, before.held(p))
    } else {
        before.held(Property::Voice)
    });
    assert(after.held(Property::ModelName) == if p == Property::ModelName {
        p.stored(value, before.held(p))
    } else {
        before.held(Property::ModelName)
    });
    assert(after.held(Property::ModelProvider) == if p == Property::ModelProvider {
        p.stored(value, before.held(p))
    } else {
        before.held(Property::ModelProvider)
    });
    assert(after.held(Property::Instructions) == if p == Property::Instructions {
        p.stored(value, before.held(p))
    } else {
        before.held(Property::Instructions)
    });
    assert(after.held(Property::ServerVad) == if p == Property::ServerVad {
        p.stored(value, before.held(p))
    } else {
        before.held(Property::ServerVad)
    });
    assert(after.held(Property::VadThreshold) == if p == Property::VadThreshold {
        p.stored(value, before.held(p))
    } else {
        before.held(Property::VadThreshold)
    });
    assert(after.held(Property::VadSilenceDuration) == if p == Property::VadSilenceDuration {
        p.stored(value, before.held(p))
    } else {
        before.held(Property::VadSilenceDuration)
    });
    assert(after.held(Property::VadMinAudioDuration) == if p == Property::VadMinAudioDuration {
        p.stored(value, before.held(p))
    } else {
        before.held(Property::VadMinAudioDuration)
    });
    assert(after.held(Property::ExecutorAddr) == if p == Property::ExecutorAddr {
        p.stored(value, before.held(p))
    } else {
        before.held(Property::ExecutorAddr)
    });
    assert(after.held(Property::KnowledgeScripts) == if p == Property::KnowledgeScripts {
        p.stored(value, before.held(p))
    } else {
        before.held(Property::KnowledgeScripts)
    });
    assert(after.held(Property::Tools) == if p == Property::Tools {
        p.stored(value, before.held(p))
    } else {
        before.held(Property::Tools)
    });
    assert(after.held(Property::ReconnectAttempts) == if p == Property::ReconnectAttempts {
        p.stored(value, before.held(p))
    } else {
        before.held(Property::ReconnectAttempts)
    });
    assert(after.held(Property::ReconnectDelayMs) == if p == Property::ReconnectDelayMs {
        p.stored(value, before.held(p))
    } else {
        before.held(Property::ReconnectDelayMs)
    });
    assert(after.held(Property::ConnectionTimeoutMs) == if p == Property::ConnectionTimeoutMs {
        p.stored(value, before.held(p))
    } else {
        before.held(Property::ConnectionTimeoutMs)
    });
    assert(after.held(Property::VisionEnableFaceDetection) == if p
        == Property::VisionEnableFaceDetection {
        p.stored(value, before.held(p))
    } else {
        before.held(Property::VisionEnableFaceDetection)
    });
    assert(after.held(Property::VisionEnableFaceIdentification) == if p
        == Property::VisionEnableFaceIdentification {
        p.stored(value, before.held(p))
    } else {
        before.held(Property::VisionEnableFaceIdentification)
    });
    assert(after.held(Property::VisionEnableObjectDetection) == if p
        == Property::VisionEnableObjectDetection {
        p.stored(value, before.held(p))
    } else {
        before.held(Property::VisionEnableObjectDetection)
    });
    assert(after.held(Property::VisionObjectDetectionClasses) == if p
        == Property::VisionObjectDetectionClasses {
        p.stored(value, before.held(p))
    } else {
        before.held(Property::VisionObjectDetectionClasses)
    });
}

/// What is read of a property is what the element works with: texts, numbers
/// and flags as they are, lists joined by commas, and the shortest audio in
/// whole milliseconds.
pub proof fn law_reading_shows_what_is_meant(s: Settings)
    ensures
        Property::Url.shown(s.held(Property::Url)) == PropertyValueView::Text(
            opt_text(s.url),
        ),
        Property::ApiKey.shown(s.held(Property::ApiKey)) == PropertyValueView::Text(
            opt_text(s.api_key),
        ),
        Property::AgentId.shown(s.held(Property::AgentId)) == PropertyValueView::Text(
            opt_text(s.agent_id),
        ),
        Property::Voice.shown(s.held(Property::Voice)) == PropertyValueView::Text(
            opt_text(s.voice),
        ),
        Property::ModelName.shown(s.held(Property::ModelName)) == PropertyValueView::Text(
            opt_text(s.model_name),
        ),
        Property::ModelProvider.shown(s.held(Property::ModelProvider)) == PropertyValueView::Text(
            opt_text(s.model_provider),
        ),
        Property::Instructions.shown(s.held(Property::Instructions)) == PropertyValueView::Text(
            opt_text(s.instructions),
        ),
        Property::ExecutorAddr.shown(s.held(Property::ExecutorAddr)) == PropertyValueView::Text(
            opt_text(s.executor_addr),
        ),
        Property::BufferTime.shown(s.held(Property::BufferTime)) == PropertyValueView::UInt(
            s.buffer_time_ms,
        ),
        Property::VadSilenceDuration.shown(s.held(Property::VadSilenceDuration))
            == PropertyValueView::UInt(
            s.vad_silence_duration_ms,
        ),
        Property::ReconnectAttempts.shown(s.held(Property::ReconnectAttempts))
            == PropertyValueView::UInt(
            s.reconnect_attempts,
        ),
        Property::ReconnectDelayMs.shown(s.held(Property::ReconnectDelayMs))
            == PropertyValueView::UInt64(
            s.reconnect_delay_ms,
        ),
        Property::ConnectionTimeoutMs.shown(s.held(Property::ConnectionTimeoutMs))
            == PropertyValueView::UInt64(
            s.connection_timeout_ms,
        ),
        Property::ServerVad.shown(
            s.held(Property::ServerVad),
        ) == PropertyValueView::Flag(s.server_vad),
        Property::VisionEnableFaceDetection.shown(
            s.held(Property::VisionEnableFaceDetection),
        ) == PropertyValueView::Flag(s.vision_enable_face_detection),
        Property::VisionEnableFaceIdentification.shown(
            s.held(Property::VisionEnableFaceIdentification),
        ) == PropertyValueView::Flag(s.vision_enable_face_identification),
        Property::VisionEnableObjectDetection.shown(
            s.held(Property::VisionEnableObjectDetection),
        ) == PropertyValueView::Flag(s.vision_enable_object_detection),
        Property::KnowledgeScripts.shown(
            s.held(Property::KnowledgeScripts),
        ) == PropertyValueView::Text(Some(joined(texts(s.knowledge_scripts@), ','))),
        Property::VisionObjectDetectionClasses.shown(
            s.held(Property::VisionObjectDetectionClasses),
        ) == PropertyValueView::Text(Some(joined(texts(s.vision_object_detection_classes@), ','))),
        Property::VadThreshold.shown(s.held(Property::VadThreshold))
            == PropertyValueView::FractionBits(s.vad_threshold_bits),
        Property::VadMinAudioDuration.shown(s.held(Property::VadMinAudioDuration))
            == PropertyValueView::UInt64(s.vad_min_audio_duration.ns / 1_000_000),
        Property::Tools.shown(s.held(Property::Tools)) == PropertyValueView::Tools(
            entries(s.tools),
        ),
{
}

/// A new element works with these values until it is told otherwise.
pub proof fn law_new_elements(s: Settings)
    requires
        forall|p: Property| #[trigger] s.held(p) == default_held(p),
    ensures
        s.url is Some && s.url->0@ == "wss://openai-realtime-ws.ticos.ai"@,
        s.api_key is None,
        s.agent_id is None,
        s.voice is None,
        s.model_name is None,
        s.model_provider is None,
        s.instructions is None,
        s.executor_addr is None,
        s.buffer_time_ms == 500,
        !s.server_vad,
        s.vad_threshold_bits == 1035489772,
        s.vad_silence_duration_ms == 520,
        s.vad_min_audio_duration.ns == 800_000_000,
        s.knowledge_scripts@.len() == 0,
        s.tools is None,
        s.reconnect_attempts == 3,
        s.reconnect_delay_ms == 5000,
        s.connection_timeout_ms == 5000,
        !s.vision_enable_face_detection,
        !s.vision_enable_face_identification,
        !s.vision_enable_object_detection,
        s.vision_object_detection_classes@.len() == 0,
{
    assert(s.held(Property::Url) == default_held(Property::Url));
    assert(s.held(Property::ApiKey) == default_held(Property::ApiKey));
    assert(s.held(Property::AgentId) == default_held(Property::AgentId));
    assert(s.held(Property::BufferTime) == default_held(Property::BufferTime));
    assert(s.held(Property::Voice) == default_held(Property::Voice));
    assert(s.held(Property::ModelName) == default_held(Property::ModelName));
    assert(s.held(Property::ModelProvider) == default_held(Property::ModelProvider));
    assert(s.held(Property::Instructions) == default_held(Property::Instructions));
    assert(s.held(Property::ServerVad) == default_held(Property::ServerVad));
    assert(s.held(Property::VadThreshold) == default_held(Property::VadThreshold));
    assert(s.held(Property::VadSilenceDuration) == default_held(Property::VadSilenceDuration));
    assert(s.held(Property::VadMinAudioDuration) == default_held(Property::VadMinAudioDuration));
    assert(s.held(Property::ExecutorAddr) == default_held(Property::ExecutorAddr));
    assert(s.held(Property::KnowledgeScripts) == default_held(Property::KnowledgeScripts));
    assert(s.held(Property::Tools) == default_held(Property::Tools));
    assert(s.held(Property::ReconnectAttempts) == default_held(Property::ReconnectAttempts));
    assert(s.held(Property::ReconnectDelayMs) == default_held(Property::ReconnectDelayMs));
    assert(s.held(Property::ConnectionTimeoutMs) == default_held(Property::ConnectionTimeoutMs));
    assert(s.held(Property::VisionEnableFaceDetection)
        == default_held(Property::VisionEnableFaceDetection));
    assert(s.held(Property::VisionEnableFaceIdentification)
        == default_held(Property::VisionEnableFaceIdentification));
    assert(s.held(Property::VisionEnableObjectDetection)
        == default_held(Property::VisionEnableObjectDetection));
    assert(s.held(Property::VisionObjectDetectionClasses)
        == default_held(Property::VisionObjectDetectionClasses));
    assert(texts(s.knowledge_scripts@).len() == s.knowledge_scripts@.len());
    assert(texts(s.vision_object_detection_classes@).len()
        == s.vision_object_detection_classes@.len());
}

/// The properties are declared under these names, in this order.
pub proof fn law_declared_names()
    ensures
        all_properties().map_values(|p: Property| p.key()) == seq![
            "url"@,
            "api-key"@,
            "agent-id"@,
            "buffer-time"@,
            "voice"@,
            "model-name"@,
            "model-provider"@,
            "instructions"@,
            "server-vad"@,
            "vad-threshold"@,
            "vad-silence-duration"@,
            "vad-min-audio-duration"@,
            "executor-addr"@,
            "knowledge-scripts"@,
            "tools"@,
            "reconnect-attempts"@,
            "reconnect-delay-ms"@,
            "connection-timeout-ms"@,
            "vision-enable-face-detection"@,
            "vision-enable-face-identification"@,
            "vision-enable-object-detection"@,
            "vision-object-detection-classes"@,
        ],
{
    assert(all_properties().map_values(|p: Property| p.key()) =~= seq![
        "url"@,
        "api-key"@,
        "agent-id"@,
        "buffer-time"@,
        "voice"@,
        "model-name"@,
        "model-provider"@,
        "instructions"@,
        "server-vad"@,
        "vad-threshold"@,
        "vad-silence-duration"@,
        "vad-min-audio-duration"@,
        "executor-addr"@,
        "knowledge-scripts"@,
        "tools"@,
        "reconnect-attempts"@,
        "reconnect-delay-ms"@,
        "connection-timeout-ms"@,
        "vision-enable-face-detection"@,
        "vision-enable-face-identification"@,
        "vision-enable-object-detection"@,
        "vision-object-detection-classes"@,
    ]);
}

/// A property takes and is declared with values of one type: the same that it
/// is read with, but for the shortest audio, which is read with 64 bits.
pub proof fn law_values_have_one_type(p: Property, s: Settings)
    ensures
        p.holds() != PropertyKind::List ==> p.accepts(declared_default(p)),
        p != Property::VadMinAudioDuration ==> p.accepts(p.shown(s.held(p))),
{
}

/// What the properties are declared to hold unless they are set.
pub proof fn law_declared_defaults()
    ensures
        declared_default(Property::Url) == PropertyValueView::Text(Some("ws://0.0.0.0:9000"@)),
        declared_default(Property::BufferTime) == PropertyValueView::UInt(500),
        declared_default(Property::VadThreshold) == PropertyValueView::FractionBits(1035489772),
        declared_default(Property::VadSilenceDuration) == PropertyValueView::UInt(520),
        declared_default(Property::VadMinAudioDuration) == PropertyValueView::UInt(800),
        declared_default(Property::ReconnectAttempts) == PropertyValueView::UInt(3),
        declared_default(Property::ReconnectDelayMs) == PropertyValueView::UInt64(5000),
        declared_default(Property::ConnectionTimeoutMs) == PropertyValueView::UInt64(5000),
        declared_default(Property::Tools) == PropertyValueView::Tools(None),
        forall|p: Property| #[trigger]
            p.holds() == PropertyKind::Flag ==> declared_default(p) == PropertyValueView::Flag(
                false,
            ),
        forall|p: Property|
            p != Property::Url && #[trigger] declared_default(p) is Text ==> declared_default(p)
                == PropertyValueView::Text(None),
{
}

/// What is written under a property is read back as the property shows it, and
/// no other property changes by it.
pub proof fn law_set_property(s: &mut Settings, p: Property, value: PropertyValue, q: Property)
    requires
        p.accepts(value@),
        call_ensures(Settings::set_property, (s, p, value), ()),
    ensures
        q != p ==> final(s).held(q) == old(s).held(q),
        p == Property::Voice ==> opt_text(final(s).voice) == opt_text(value->Text_0),
        p == Property::Instructions ==> opt_text(final(s).instructions) == opt_text(value->Text_0),
        p == Property::ServerVad ==> final(s).server_vad == value->Flag_0,
        p == Property::VadMinAudioDuration ==> final(s).vad_min_audio_duration.ns == value->UInt_0
            * 1_000_000,
        p == Property::ReconnectAttempts ==> final(s).reconnect_attempts == value->UInt_0,
{
    assert(Settings::written(*old(s), *final(s), p, value@));
    law_writing_sets_what_is_meant(*old(s), *final(s), p, value@);
}

/// What is read of a property is what the settings hold.
pub proof fn law_property(s: &Settings, p: Property, value: PropertyValue)
    requires
        call_ensures(Settings::property, (s, p), value),
    ensures
        p == Property::Url ==> value is Text && opt_text(value->Text_0) == opt_text(s.url),
        p == Property::ApiKey ==> value is Text && opt_text(value->Text_0) == opt_text(s.api_key),
        p == Property::AgentId ==> value is Text && opt_text(value->Text_0) == opt_text(s.agent_id),
        p == Property::Voice ==> value is Text && opt_text(value->Text_0) == opt_text(s.voice),
        p == Property::ModelName ==> value is Text && opt_text(value->Text_0)
            == opt_text(s.model_name),
        p == Property::ModelProvider ==> value is Text && opt_text(value->Text_0)
            == opt_text(s.model_provider),
        p == Property::Instructions ==> value is Text && opt_text(value->Text_0)
            == opt_text(s.instructions),
        p == Property::ExecutorAddr ==> value is Text && opt_text(value->Text_0)
            == opt_text(s.executor_addr),
        p == Property::BufferTime ==> value is UInt && value->UInt_0 == s.buffer_time_ms,
        p == Property::ReconnectDelayMs ==> value is UInt64 && value->UInt64_0
            == s.reconnect_delay_ms,
        p == Property::ServerVad ==> value is Flag && value->Flag_0 == s.server_vad,
        p == Property::VadMinAudioDuration ==> value is UInt64 && value->UInt64_0
            == s.vad_min_audio_duration.ns as int / 1_000_000,
{
}

/// A value is seen as it is: texts and tools by what they hold.
pub proof fn law_values_are_seen_whole(value: PropertyValue)
    ensures
        value is Text ==> value@ is Text && value@->Text_0 == opt_text(value->Text_0),
        value is UInt ==> value@ is UInt && value@->UInt_0 == value->UInt_0,
        value is UInt64 ==> value@ is UInt64 && value@->UInt64_0 == value->UInt64_0,
        value is Flag ==> value@ is Flag && value@->Flag_0 == value->Flag_0,
        value is FractionBits ==> value@ is FractionBits && value@->FractionBits_0
            == value->FractionBits_0,
        value is Tools ==> value@ is Tools && value@->Tools_0 == entries(value->Tools_0),
{
}

} // verus!
