//! The language-model layer's deterministic parts: configuration choices,
//! the messages sent, and the checks applied to what comes back.

pub mod config;
pub mod client;
pub mod npc_dialogue;
pub mod rumor_flavor;
pub mod response;
pub mod prompt;
