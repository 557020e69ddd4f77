//! Small geometric helpers.

pub mod rect;
