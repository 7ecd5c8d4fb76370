//! Core logic of the Supuraisu desktop client for Splice: auth state,
//! catalog summaries, helper discovery and local archive parsing.

pub mod text;
pub mod json;
pub mod catalog;
pub mod search;
pub mod packs;
pub mod profile;
pub mod graphql;
pub mod asar;
pub mod keychain;
pub mod auth;
pub mod oauth;
pub mod paths;
pub mod helper;
