//! A multi-region trading desk.
//!
//! Every region has a ledger behind a password-gated lock. A client logs in
//! to a region over the network, holds the region's lock for as long as its
//! connection lasts, and records transfers on the region's ledger through the
//! guard that the lock handed out.
//!
//! - [`ledger`]: orders, running totals and history windows.
//! - [`server`]: one region's lock and ledger, and the model of both.
//! - [`book`]: the registry of regions.
//! - [`guard`]: what the holder of a lock can do.
//! - [`laws`]: what holds of a lock and its ledger over every history.
//! - [`wire`]: the bytes of requests and replies.
//! - [`session`]: the server's side of one connection.
//! - [`desk`]: what holds of any number of sessions over one registry.
//! - [`engine`]: what the answers of the native record store mean.
//! - [`worker`]: the client's side of the protocol.
//! - [`gui`] and [`dashboard`]: the state of the terminal dashboard.

pub mod book;
pub mod dashboard;
pub mod desk;
pub mod engine;
pub mod guard;
pub mod gui;
pub mod laws;
pub mod ledger;
pub mod server;
pub mod session;
pub mod wire;
pub mod worker;
