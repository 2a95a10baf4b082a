//! Core rules of a product-tracking backend: bearer credentials, role guards,
//! password digests, barcodes and the stages a product passes through.
//!
//! Everything here works on plain values. Reading the clock, the request, the
//! environment and the database is left to the program built on top; the
//! only thing the library takes from the machine is the randomness of fresh
//! identifiers.

pub mod auth;
pub mod auxiliary;
pub mod models;
pub mod product_id;
pub mod profile;
pub mod routes;
pub mod stage_machine;
pub mod text;
