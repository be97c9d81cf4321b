//! What the server tells a client, as far as it matters here.

use vstd::prelude::*;

verus! {

/// An item of a response, or its name.
#[derive(Debug)]
pub enum ResponseOutputItem {
    ItemId(String),
    Item,
}

/// An event that the server sends.
#[derive(Debug)]
pub enum ServerEvent {
    /// The session was set up.
    SessionCreated,
    /// The session has its new configuration.
    SessionUpdated,
    /// Something went wrong.
    Error { kind: String, message: String },
    /// A response has begun.
    ResponseCreated { output: Vec<ResponseOutputItem> },
    /// A response has a new item.
    ResponseOutputItemAdded,
    /// More audio, in base64, of an item.
    ResponseAudioDelta { item_id: String, delta: String },
    /// A function is to be called.
    ResponseFunctionCallArgumentsDone { name: String, arguments: String },
    /// What was heard has become a message.
    InputAudioBufferCommited,
    /// The speaker has fallen silent.
    InputAudioBufferSpeechStopped,
    /// Anything else.
    Other,
}

} // verus!
