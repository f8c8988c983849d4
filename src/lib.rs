//! Data-access core of a small blog backend: short identifier allocation,
//! sparse record patches, the one-time installation gate and the session
//! secret bootstrap.
pub mod auth;
pub mod config;
pub mod error;
pub mod extract;
pub mod gate;
pub mod nano_id;
pub mod post;
pub mod resp;
pub mod secret;
