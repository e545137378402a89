//! What is received and sent over HTTP.

pub mod bot;
