//! The decisions of a Conduit node: a peer in a network that shares large
//! language models behind an OpenAI-compatible API.

pub mod api;
pub mod auth;
pub mod backend;
pub mod clock;
pub mod config;
pub mod doors;
pub mod guard;
pub mod history;
pub mod network;
pub mod peers;
pub mod relay;
pub mod router;
pub mod serve;
pub mod startup;
pub mod text;
