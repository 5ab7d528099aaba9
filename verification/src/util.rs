//! Helpers shared by the other modules.

pub mod nvme;
pub mod text;
