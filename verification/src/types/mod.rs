//! Data types of the OpenCode API.

pub mod event;
pub mod question;
