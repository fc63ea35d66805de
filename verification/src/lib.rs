//! Core logic of a Telegram quote bot: the SQL statements it runs, the
//! decisions it takes on each command and callback, and the texts it sends.
use vstd::prelude::*;

pub mod callbacks;
pub mod commands;
pub mod config;
pub mod date;
pub mod queries;
pub mod quotes;
pub mod text;
pub mod types;
pub mod user_management;
pub mod users;

verus! {
}
