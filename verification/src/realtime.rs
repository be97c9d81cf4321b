//! A realtime voice session: audio in, audio out, over one WebSocket.

pub mod audio;
pub mod client_event;
pub mod connect;
pub mod executor;
pub mod pad;
pub mod server_event;
pub mod session;
pub mod settings;
pub mod task;
pub mod transformer;
pub mod types;
