//! The native half of a script bridge between a desktop shell and the web
//! views it embeds: request correlation, the reporting harness wrapped around
//! injected scripts, the relay of completion payloads, and the selection of
//! page metadata.

pub mod evaluate;
pub mod harness;
pub mod inject;
pub mod metadata;
pub mod pending;
pub mod pipeline;
pub mod relay;
pub mod request_id;
pub mod text;
