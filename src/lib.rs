//! Client context resolution and response synthesis for a "what is my
//! address" HTTP service: client classification, header projection,
//! country fallback and the routing decision, each with a verified contract.

pub mod text;
pub mod command;
pub mod classify;
pub mod geo;
pub mod headers;
pub mod router;
