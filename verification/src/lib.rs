//! A live view of a user's social graph.
//!
//! The service pushes events over a long-lived connection, the pipeline. This
//! library decodes the frames of that stream ([`websocket::message`]), keeps
//! what is known of each user in a relationship cache
//! ([`store::user_store`]), applies each event to the cache and says what to
//! tell outward of it ([`websocket::dispatch`]), and decides when to connect,
//! read and wait ([`websocket::client`]).
//!
//! The library performs no I/O and reads no clock. A driver around it sends,
//! receives and sleeps, and hands in what happened as plain values; the
//! decisions of the request client ([`vrchat_api::client`]), of the image
//! cache ([`store::image_cache`]) and the reading of the log
//! ([`log_manager`]) are offered in the same way.
//!
//! The data that the functions work on has a mathematical value, its view,
//! and every function says over these values what it returns or changes.
//! What holds across functions is proved in [`store::laws`] and
//! [`websocket::laws`].

pub mod http_common;
pub mod json;
pub mod log_manager;
pub mod store;
pub mod text;
pub mod views;
pub mod vrchat_api;
pub mod vrchat_status;
pub mod websocket;
