//! Decision logic of a bot that watches chat servers for invite links and
//! files every server it learns about in a directory server.

pub mod command;
pub mod config;
pub mod error;
pub mod index_laws;
pub mod indexing;
pub mod model;
pub mod ripper;
pub mod routing;
pub mod text;
