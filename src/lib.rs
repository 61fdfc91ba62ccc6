//! Vote restriction rules for a GRANDPA finality voter.
//!
//! Each rule looks at the bounds of a voting round (`base`, `best_target`,
//! `current_target`) and may replace the proposed target with an earlier block.

pub mod chain;
pub mod ancestry;
pub mod pause;
pub mod diagnostic;
pub mod rule;
