//! Core of a minimal HTTP demo server: request routing, static-asset path
//! resolution, content-type inference, and uniform response envelopes.
//!
//! The logic here is pure: it maps a method and path to a route, a route to an
//! on-disk path, and a read outcome to a response. Reading files and speaking
//! HTTP are left to a thin runtime layer around this crate.

pub mod assets;
pub mod messages;
pub mod routes;
pub mod text;
