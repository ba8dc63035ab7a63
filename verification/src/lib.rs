//! Typed index collections and the game data model of a production-chain
//! calculator, with the logic that turns imported game assets into that model.

pub mod index_types;
pub mod typed_index;
pub mod iter;
pub mod collection;
pub mod strings;
pub mod calculator;
pub mod importer;
