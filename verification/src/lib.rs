//! Account provisioning for a chat service: bot accounts, the records they are
//! made of, and the rules that keep the user and bot tables consistent.

pub mod db;
pub mod error;
pub mod flags;
pub mod http;
pub mod models;
pub mod text;
