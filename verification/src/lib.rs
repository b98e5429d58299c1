//! Backend data layer of a small desktop registration tool: it keeps
//! registration records (first name, surname, phone) in an embedded
//! database, offers create/list/delete over them, and renders the whole
//! record set as a timestamped CSV export destined for the user's
//! downloads directory.

pub mod csvfmt;
pub mod errors;
pub mod facade;
pub mod laws;
pub mod paths;
pub mod records;
pub mod store;
pub mod text;
