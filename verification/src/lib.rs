//! Release/version management engine for compatibility-layer tools consumed
//! by game-launcher applications: resolving where each launcher keeps its
//! tools, picking the latest published release, deciding whether an install
//! is needed, driving the download/extract/commit sequence safely, and
//! keeping the set of installed versions listable and removable.

pub mod apps;
pub mod batch;
pub mod download;
pub mod errors;
pub mod extract;
pub mod installer;
pub mod menu;
pub mod release;
pub mod store;
