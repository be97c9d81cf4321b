//! What a client tells the server.

use vstd::prelude::*;
use vstd::std_specs::convert::FromSpec;

use crate::realtime::types::{Item, Session};

verus! {

/// Configures the session.
#[derive(Debug)]
pub struct SessionUpdate {
    pub event_id: Option<String>,
    pub session: Session,
}

impl Clone for SessionUpdate {
    fn clone(&self) -> (r: SessionUpdate)
        ensures
            r.event_id == self.event_id,
            r.session.same(self.session),
    {
        SessionUpdate { event_id: self.event_id.clone(), session: self.session.clone() }
    }
}

impl Default for SessionUpdate {
    fn default() -> (r: SessionUpdate)
        ensures
            r.event_id is None,
            r.session == (Session {
                agent_id: None,
                model: None,
                hearing: None,
                speech: None,
                knowledge: None,
                vision: None,
            }),
    {
        SessionUpdate { event_id: None, session: Session::default() }
    }
}

/// Adds audio, in base64, to what was heard.
#[derive(Debug)]
pub struct InputAudioBufferAppend {
    pub event_id: Option<String>,
    pub audio: String,
}

impl Clone for InputAudioBufferAppend {
    fn clone(&self) -> (r: InputAudioBufferAppend)
        ensures
            r == *self,
    {
        InputAudioBufferAppend { event_id: self.event_id.clone(), audio: self.audio.clone() }
    }
}

impl Default for InputAudioBufferAppend {
    fn default() -> (r: InputAudioBufferAppend)
        ensures
            r.event_id is None,
            r.audio@ == Seq::<char>::empty(),
    {
        InputAudioBufferAppend { event_id: None, audio: String::new() }
    }
}

/// Ends what was heard: it becomes a message.
#[derive(Debug)]
pub struct InputAudioBufferCommit {
    pub event_id: Option<String>,
}

impl Clone for InputAudioBufferCommit {
    fn clone(&self) -> (r: InputAudioBufferCommit)
        ensures
            r == *self,
    {
        InputAudioBufferCommit { event_id: self.event_id.clone() }
    }
}

impl Default for InputAudioBufferCommit {
    fn default() -> (r: InputAudioBufferCommit)
        ensures
            r.event_id is None,
    {
        InputAudioBufferCommit { event_id: None }
    }
}

/// Drops what was heard.
#[derive(Debug)]
pub struct InputAudioBufferClear {
    pub event_id: Option<String>,
}

impl Clone for InputAudioBufferClear {
    fn clone(&self) -> (r: InputAudioBufferClear)
        ensures
            r == *self,
    {
        InputAudioBufferClear { event_id: self.event_id.clone() }
    }
}

impl Default for InputAudioBufferClear {
    fn default() -> (r: InputAudioBufferClear)
        ensures
            r.event_id is None,
    {
        InputAudioBufferClear { event_id: None }
    }
}

/// Adds an item to the conversation.
#[derive(Debug)]
pub struct ConversationItemCreate {
    pub event_id: Option<String>,
    pub previous_item_id: Option<String>,
    pub item: Item,
}

impl Clone for ConversationItemCreate {
    fn clone(&self) -> (r: ConversationItemCreate)
        ensures
            r.event_id == self.event_id,
            r.previous_item_id == self.previous_item_id,
            r.item.same(self.item),
    {
        ConversationItemCreate {
            event_id: self.event_id.clone(),
            previous_item_id: self.previous_item_id.clone(),
            item: self.item.clone(),
        }
    }
}

impl Default for ConversationItemCreate {
    fn default() -> (r: ConversationItemCreate)
        ensures
            r.event_id is None,
            r.previous_item_id is None,
            r.item == (Item {
                id: None,
                kind: None,
                status: None,
                role: None,
                content: None,
                call_id: None,
                name: None,
                arguments: None,
                output: None,
            }),
    {
        ConversationItemCreate { event_id: None, previous_item_id: None, item: Item::default() }
    }
}

/// Cuts the audio of an item short.
#[derive(Debug)]
pub struct ConversationItemTruncate {
    pub event_id: Option<String>,
    pub item_id: String,
    pub content_index: u32,
    pub audio_end_ms: u32,
}

impl Clone for ConversationItemTruncate {
    fn clone(&self) -> (r: ConversationItemTruncate)
        ensures
            r == *self,
    {
        ConversationItemTruncate {
            event_id: self.event_id.clone(),
            item_id: self.item_id.clone(),
            content_index: self.content_index,
            audio_end_ms: self.audio_end_ms,
        }
    }
}

impl Default for ConversationItemTruncate {
    fn default() -> (r: ConversationItemTruncate)
        ensures
            r.event_id is None,
            r.item_id@ == Seq::<char>::empty(),
            r.content_index == 0,
            r.audio_end_ms == 0,
    {
        ConversationItemTruncate {
            event_id: None,
            item_id: String::new(),
            content_index: 0,
            audio_end_ms: 0,
        }
    }
}

/// Removes an item from the conversation.
#[derive(Debug)]
pub struct ConversationItemDelete {
    pub event_id: Option<String>,
    pub item_id: String,
}

impl Clone for ConversationItemDelete {
    fn clone(&self) -> (r: ConversationItemDelete)
        ensures
            r == *self,
    {
        ConversationItemDelete { event_id: self.event_id.clone(), item_id: self.item_id.clone() }
    }
}

impl Default for ConversationItemDelete {
    fn default() -> (r: ConversationItemDelete)
        ensures
            r.event_id is None,
            r.item_id@ == Seq::<char>::empty(),
    {
        ConversationItemDelete { event_id: None, item_id: String::new() }
    }
}

/// Asks for a response.
#[derive(Debug)]
pub struct ResponseCreate {
    pub event_id: Option<String>,
}

impl Clone for ResponseCreate {
    fn clone(&self) -> (r: ResponseCreate)
        ensures
            r == *self,
    {
        ResponseCreate { event_id: self.event_id.clone() }
    }
}

impl Default for ResponseCreate {
    fn default() -> (r: ResponseCreate)
        ensures
            r.event_id is None,
    {
        ResponseCreate { event_id: None }
    }
}

/// Stops the response under way.
#[derive(Debug)]
pub struct ResponseCancel {
    pub event_id: Option<String>,
}

impl Clone for ResponseCancel {
    fn clone(&self) -> (r: ResponseCancel)
        ensures
            r == *self,
    {
        ResponseCancel { event_id: self.event_id.clone() }
    }
}

impl Default for ResponseCancel {
    fn default() -> (r: ResponseCancel)
        ensures
            r.event_id is None,
    {
        ResponseCancel { event_id: None }
    }
}

/// An event that a client sends.
#[derive(Debug)]
pub enum ClientEvent {
    SessionUpdate(SessionUpdate),
    InputAudioBufferAppend(InputAudioBufferAppend),
    InputAudioBufferCommit(InputAudioBufferCommit),
    InputAudioBufferClear(InputAudioBufferClear),
    ConversationItemCreate(ConversationItemCreate),
    ConversationItemTruncate(ConversationItemTruncate),
    ConversationItemDelete(ConversationItemDelete),
    ResponseCreate(ResponseCreate),
    ResponseCancel(ResponseCancel),
}

impl From<SessionUpdate> for ClientEvent {
    fn from(value: SessionUpdate) -> (r: ClientEvent) {
        ClientEvent::SessionUpdate(value)
    }
}

impl vstd::std_specs::convert::FromSpecImpl<SessionUpdate> for ClientEvent {
    open spec fn obeys_from_spec() -> bool {
        true
    }

    open spec fn from_spec(value: SessionUpdate) -> ClientEvent {
        ClientEvent::SessionUpdate(value)
    }
}

impl From<InputAudioBufferAppend> for ClientEvent {
    fn from(value: InputAudioBufferAppend) -> (r: ClientEvent) {
        ClientEvent::InputAudioBufferAppend(value)
    }
}

impl vstd::std_specs::convert::FromSpecImpl<InputAudioBufferAppend> for ClientEvent {
    open spec fn obeys_from_spec() -> bool {
        true
    }

    open spec fn from_spec(value: InputAudioBufferAppend) -> ClientEvent {
        ClientEvent::InputAudioBufferAppend(value)
    }
}

impl From<InputAudioBufferCommit> for ClientEvent {
    fn from(value: InputAudioBufferCommit) -> (r: ClientEvent) {
        ClientEvent::InputAudioBufferCommit(value)
    }
}

impl vstd::std_specs::convert::FromSpecImpl<InputAudioBufferCommit> for ClientEvent {
    open spec fn obeys_from_spec() -> bool {
        true
    }

    open spec fn from_spec(value: InputAudioBufferCommit) -> ClientEvent {
        ClientEvent::InputAudioBufferCommit(value)
    }
}

impl From<InputAudioBufferClear> for ClientEvent {
    fn from(value: InputAudioBufferClear) -> (r: ClientEvent) {
        ClientEvent::InputAudioBufferClear(value)
    }
}

impl vstd::std_specs::convert::FromSpecImpl<InputAudioBufferClear> for ClientEvent {
    open spec fn obeys_from_spec() -> bool {
        true
    }

    open spec fn from_spec(value: InputAudioBufferClear) -> ClientEvent {
        ClientEvent::InputAudioBufferClear(value)
    }
}

impl From<ConversationItemCreate> for ClientEvent {
    fn from(value: ConversationItemCreate) -> (r: ClientEvent) {
        ClientEvent::ConversationItemCreate(value)
    }
}

impl vstd::std_specs::convert::FromSpecImpl<ConversationItemCreate> for ClientEvent {
    open spec fn obeys_from_spec() -> bool {
        true
    }

    open spec fn from_spec(value: ConversationItemCreate) -> ClientEvent {
        ClientEvent::ConversationItemCreate(value)
    }
}

impl From<ConversationItemTruncate> for ClientEvent {
    fn from(value: ConversationItemTruncate) -> (r: ClientEvent) {
        ClientEvent::ConversationItemTruncate(value)
    }
}

impl vstd::std_specs::convert::FromSpecImpl<ConversationItemTruncate> for ClientEvent {
    open spec fn obeys_from_spec() -> bool {
        true
    }

    open spec fn from_spec(value: ConversationItemTruncate) -> ClientEvent {
        ClientEvent::ConversationItemTruncate(value)
    }
}

impl From<ConversationItemDelete> for ClientEvent {
    fn from(value: ConversationItemDelete) -> (r: ClientEvent) {
        ClientEvent::ConversationItemDelete(value)
    }
}

impl vstd::std_specs::convert::FromSpecImpl<ConversationItemDelete> for ClientEvent {
    open spec fn obeys_from_spec() -> bool {
        true
    }

    open spec fn from_spec(value: ConversationItemDelete) -> ClientEvent {
        ClientEvent::ConversationItemDelete(value)
    }
}

impl From<ResponseCreate> for ClientEvent {
    fn from(value: ResponseCreate) -> (r: ClientEvent) {
        ClientEvent::ResponseCreate(value)
    }
}

impl vstd::std_specs::convert::FromSpecImpl<ResponseCreate> for ClientEvent {
    open spec fn obeys_from_spec() -> bool {
        true
    }

    open spec fn from_spec(value: ResponseCreate) -> ClientEvent {
        ClientEvent::ResponseCreate(value)
    }
}

impl From<ResponseCancel> for ClientEvent {
    fn from(value: ResponseCancel) -> (r: ClientEvent) {
        ClientEvent::ResponseCancel(value)
    }
}

impl vstd::std_specs::convert::FromSpecImpl<ResponseCancel> for ClientEvent {
    open spec fn obeys_from_spec() -> bool {
        true
    }

    open spec fn from_spec(value: ResponseCancel) -> ClientEvent {
        ClientEvent::ResponseCancel(value)
    }
}

/// An event is sent as what it is, and whole.
pub proof fn law_events_keep_their_kind(
    a: SessionUpdate,
    b: InputAudioBufferAppend,
    c: InputAudioBufferCommit,
    d: InputAudioBufferClear,
    e: ConversationItemCreate,
    f: ConversationItemTruncate,
    g: ConversationItemDelete,
    h: ResponseCreate,
    i: ResponseCancel,
)
    ensures
        ClientEvent::from_spec(a) == ClientEvent::SessionUpdate(a),
        ClientEvent::from_spec(b) == ClientEvent::InputAudioBufferAppend(b),
        ClientEvent::from_spec(c) == ClientEvent::InputAudioBufferCommit(c),
        ClientEvent::from_spec(d) == ClientEvent::InputAudioBufferClear(d),
        ClientEvent::from_spec(e) == ClientEvent::ConversationItemCreate(e),
        ClientEvent::from_spec(f) == ClientEvent::ConversationItemTruncate(f),
        ClientEvent::from_spec(g) == ClientEvent::ConversationItemDelete(g),
        ClientEvent::from_spec(h) == ClientEvent::ResponseCreate(h),
        ClientEvent::from_spec(i) == ClientEvent::ResponseCancel(i),
{
}

} // verus!
