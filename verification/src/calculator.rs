//! The production-chain calculator: the game data model, its queries, and
//! the conversion from the serialized game data.

pub mod serialization;
pub mod game_data;
pub mod query;
pub mod sort;
pub mod load;
pub mod fields;
pub mod iter_ext;
pub mod planning;
