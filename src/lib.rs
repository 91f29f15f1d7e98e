//! Persistence core of a desktop application launcher: the snapshot of
//! groups and their application shortcuts, the rows that represent it in the
//! store's three tables, and the algorithms that turn one into the other.

pub mod laws;
pub mod launch;
pub mod model;
pub mod repository;
pub mod rows;
pub mod text;
pub mod window;
