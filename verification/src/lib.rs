//! Event-distribution core for a show-control installation.
//!
//! The crate models the system connection bus of a live installation: item
//! identifiers with sentinel-aware construction, the decisions the bus worker
//! makes on every polling pass (echo fan-out, identity filtering, broadcast
//! retry, pacing), and the request/reply envelope of the web control plane.

pub mod connection;
pub mod item;
pub mod text;
pub mod web;

pub use item::ItemId;
