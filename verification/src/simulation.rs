//! Galaxy simulation: the galaxy model, faction behaviour, ticks and
//! generation helpers.

pub mod galaxy;
pub mod faction_ai;
pub mod faction_tick;
pub mod generate;
pub mod locations;
pub mod people;
pub mod templates;
pub mod tick;
pub mod travel;
