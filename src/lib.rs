//! A small HTTP service's logic: the greeting, a cached bitcoin price and
//! what a Mensa stew costs in satoshi at it, and the shark stock of one store.
//!
//! The price cache is a single slot that serves a fetched price for a fixed
//! window and records each successful fetch; its rules are stated over
//! `price_cache::call_step` and proved there.
pub mod congressbeer;
pub mod decimal;
pub mod hello;
pub mod mensatoshi;
pub mod price_cache;
pub mod response;
pub mod shark;
