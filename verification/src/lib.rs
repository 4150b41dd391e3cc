//! A small casino-style betting service core: an odds table and bet engine
//! for a 37-outcome wheel, a game engine that resolves a request of wagers
//! against a drawn outcome, a keyed store of played games scoped by the
//! owning service, and the token checks that gate access to it.

pub mod auth;
pub mod bet;
pub mod game;
pub mod odds;
pub mod store;
