//! Client-side logic for the IGDB game-database REST API.
//!
//! The crate builds Apicalypse query strings, keeps the credentials and the
//! cached bearer token of a client, derives endpoint names from message type
//! names and describes the HTTP exchanges that a transport has to perform.
//! The transport itself is left to the caller.

pub mod text;
pub mod apicalypse_builder;


pub mod client;
