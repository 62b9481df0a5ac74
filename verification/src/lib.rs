//! The core of a chat gateway. It selects one language-model backend from the
//! configuration, writes a prompt in that backend's wire format, reads the
//! backend's answer back into plain text, and maps every outcome to one HTTP
//! reply.
//!
//! Nothing here touches the network or the environment. The settings come in
//! as a [`model_manager::BackendConfig`]; what goes over the wire comes out as
//! a [`model_manager::OutboundRequest`], and what came back goes in again step
//! by step (see [`model_manager::LlmModule`]). [`handlers::chat_api_handler`]
//! runs a whole request against a server whose answers are known beforehand,
//! and [`guarantees`] states what holds of every such run.

pub mod error;
pub mod guarantees;
pub mod handlers;
pub mod json;
pub mod model_manager;
pub mod status;
