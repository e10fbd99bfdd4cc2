//! In-memory chat backend: conversations, users and the requests sent to
//! upstream model providers.

pub mod chat_view;
pub mod error;
pub mod json;
pub mod message;
pub mod model_config;
pub mod store;
pub mod text;
pub mod theme;
pub mod upstream;
pub mod users;
