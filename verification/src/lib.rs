//! The verified core of a remote shell and single-file transfer client.
#![allow(unused_imports)]

pub mod codec;
pub mod config;
pub mod crypto;
pub mod echo;
pub mod exec;
pub mod frame;
pub mod handshake;
pub mod json;
pub mod keys;
pub mod mcp;
pub mod message;
pub mod pool;
pub mod pull;
pub mod push;
pub mod resume;
pub mod script;
pub mod session;
pub mod session_loop;
pub mod terminal;
pub mod text;
pub mod transfer;
