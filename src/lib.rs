//! An OAuth1-signed JSON API client: credential checks, request building and
//! response classification, with the network round trip left to the caller.
pub mod api;
