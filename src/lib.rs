//! Settings of a long-running client: a draft that the user edits, the
//! committed settings that background workers read, and the commands sent to
//! the background coordinator when they change.
pub mod controller;
pub mod dispatch;
pub mod duration;
pub mod settings;
