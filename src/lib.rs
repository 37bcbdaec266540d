//! The rules of a gym's back office: clients, the catalog of disciplines and
//! membership plans, the subscription engine that creates, renews and expires
//! subscriptions and records class attendance, filtered listings, and the
//! authentication rules around access and refresh tokens.
//!
//! Every operation is a function from the records it reads (and the current
//! instant) to the records it writes, so that a caller holding a datastore
//! performs the reads and writes around it.

pub mod auth;
pub mod clients;
pub mod error;
pub mod filter;
pub mod membership;
pub mod subscription;
pub mod time;
