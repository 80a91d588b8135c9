//! Starbound game rules: the deterministic logic of a space-exploration
//! game, with contracts that state what each rule computes.

pub mod text;
pub mod rng;

pub mod cargo;
pub mod checks;
pub mod consequences;
pub mod contracts;
pub mod crew_conversation;
pub mod npc_interaction;
pub mod persistence;
pub mod reputation;
pub mod rumors;
pub mod supplies;
pub mod travel;

pub mod llm;
pub mod simulation;
