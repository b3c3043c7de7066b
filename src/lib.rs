//! Client library for a versioned, XML-based marketplace web service:
//! canonical request parameters, request signing, classification of answers,
//! and typed decoding of the service's XML responses.
//!
//! The parts of a call, in order: a parameter set becomes canonical pairs
//! (`params`), the pairs are signed (`sign`, `client`), the caller sends the
//! signed request and hands the answer back (`response`), and the body is
//! read into typed records (`document`, `products`, `reports`).

pub mod client;
pub mod constants;
pub mod datetime;
pub mod document;
pub mod params;
pub mod products;
pub mod reports;
pub mod response;
pub mod sign;
pub mod text;
