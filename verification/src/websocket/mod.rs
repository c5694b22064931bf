//! The pipeline: frames of the push-event stream, their decoding, what each
//! event does to the cache, and the connection that delivers them.

pub mod client;
pub mod decode;
pub mod dispatch;
pub mod laws;
pub mod message;
pub mod types;

pub use client::VRChatWebSocket;
pub use message::WebSocketMessage;
