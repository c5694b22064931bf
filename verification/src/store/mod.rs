//! In-memory state shared by the parts of the application.

pub mod image_cache;
pub mod laws;
pub mod user_store;

pub use user_store::UserStore;


