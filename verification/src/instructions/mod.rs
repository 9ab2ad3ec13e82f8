//! What each operation decides, on the records handed to it.

pub mod initialize;
pub mod list;
pub mod purchase;
