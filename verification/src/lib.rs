//! Core logic of a dynamic-DNS client.
//!
//! The library covers everything the client decides, as verified code over
//! plain byte strings: cleaning and accepting the text a public-address
//! provider returns, ordered fallback over several providers, picking a
//! global-unicast IPv6 address from the local interfaces, comparing the
//! freshly resolved addresses against a cached state, planning which DNS
//! records to update, and framing the request URL and JSON body for each
//! update. The surrounding binary does the network and file I/O and feeds
//! plain values in and out.

pub mod bytes;
pub mod config;
pub mod laws;
pub mod plan;
pub mod resolve;
pub mod wire;
