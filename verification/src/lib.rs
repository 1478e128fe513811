//! Ferrite: the logic of a self-hosted music streaming server, verified.

pub mod text;
pub mod paths;
pub mod range;
pub mod stream;
pub mod session;
pub mod metadata;
pub mod download;
pub mod scanner;
pub mod library;
pub mod web;
pub mod watcher;
