//! The decision logic of a set of GStreamer elements: a realtime voice
//! session over WebSocket, an object tracker, a voice gate driven by faces,
//! and a video sink over WebSocket.
//!
//! The elements' data structures, rules and state machines are here, each
//! with a contract. Pads, sockets, timers and threads belong to the caller,
//! which performs the actions it is handed and reports what came of them.

pub mod bytes;
pub mod children;
pub mod clock;
pub mod media;
pub mod object_tracker;
pub mod realtime;
pub mod request;
pub mod retry;
pub mod tensor;
pub mod text;
pub mod tracks;
pub mod visual_voice;
pub mod websocket_video;
