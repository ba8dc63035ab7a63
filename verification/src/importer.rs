//! The importer: reads the game's Unity assets and turns them into the
//! serialized game data of the calculator.

pub mod unity;
pub mod mono_behaviour;
pub mod yaml;
pub mod asset_paths;
pub mod assets;
pub mod export;
pub mod gatherer;
