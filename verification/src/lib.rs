//! Announce-request helpers for a BitTorrent ratio tool: the profiles of the
//! torrent clients it can impersonate, and the URL encoding that those clients
//! apply to binary values in tracker queries.
#![allow(non_snake_case)]

pub mod client;
pub mod encoding;
pub mod generation;
pub mod pattern;

pub use client::{get_client, Client};
pub use encoding::{
    escape_char, get_URL_encoded, get_URL_encoded_char, percent_encode_char, try_get_URL_encoded,
};
pub use generation::{Generators, KeyGenerator, PeerIdGenerator};
pub use pattern::pattern_compiles;
