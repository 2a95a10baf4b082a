//! What the request handlers decide.
//!
//! A handler talks to the record store and to the identity provider, and
//! decides between the calls. The decisions are here; the calls are not. Each
//! handler is a function that takes the state it is in and the reply to its
//! last request, and gives the next state together with the next request or
//! the final answer. The program around it sends the requests and feeds the
//! replies back.

pub mod documents;
pub mod flow;
pub mod product;
pub mod profile;
pub mod reports;
pub mod user;

pub use flow::{Reply, Request, Step};
