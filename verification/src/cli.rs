//! The runs that an outside trigger starts.

pub mod daily;
