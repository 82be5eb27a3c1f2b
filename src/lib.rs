//! A small task tracker: the `todos` table with its invariants and the laws
//! its operations obey, and the text the command line prints around them.

pub mod dispatch;
pub mod laws;
pub mod table;
