//! JWT-based authentication middleware: a claims model, a token
//! builder, and client/server authenticators that turn an immutable
//! `Config` into signing and verifying middleware layers.

pub mod builder;
pub mod claims;
pub mod codec;
pub mod config;
pub mod errors;
pub mod handler;
pub mod key;
pub mod laws;
pub mod layers;
pub mod token;
