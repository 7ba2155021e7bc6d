//! The HTML interface: the rows its pages show and who may see them.
pub mod access;
pub mod assets;
pub mod dashboard;
pub mod session;
pub mod supplies;
pub mod tasks;
