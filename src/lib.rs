//! Build search for a game character: the discrete half of the optimiser.
//!
//! The library holds the lookup tables (perfect sub-stat rolls, set bonuses,
//! accessory, element and tag bonuses, per-unit rules), the sub-stat strategy
//! generator, the collision rule that places rolls on equipment slots, the
//! enumeration of the configurations one build search evaluates, the plan of
//! the top-level search, and the ordering of its results by key.
//!
//! Stat amounts are held in tenths of a percent, which represents every table
//! value of the game exactly.

pub mod text;
pub mod stats;
pub mod bonus;
pub mod strategy;
pub mod substats;
pub mod search;
pub mod plan;
pub mod ranking;
