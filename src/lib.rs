//! A client for a game platform's web API: it resolves account names,
//! fetches player profiles, and merges a player's achievement record with
//! the game's published achievement schema.
//!
//! The library holds the request building, the interpretation of decoded
//! responses and the merge; performing HTTP requests and decoding bodies is
//! left to the embedding application, which hands the outcomes back.
pub mod client;
pub mod error;
pub mod merge;
pub mod model;
pub mod ops;

pub use client::{HttpClient, Request, SteamClient};
pub use error::{FetchFailure, SteamError};
pub use merge::player_achievements;
pub use ops::{player_profile, vanity_url};
