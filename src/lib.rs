//! A relay that reads a BTC price feed published by an oracle program and
//! keeps a snapshot of it in a record at a derived address.
pub mod address;
pub mod error;
pub mod feed;
pub mod laws;
pub mod relay;
