//! The core of a peer-to-peer application node: it decides which aspects
//! of entries the node holds, and answers queries about the links between
//! entries as they currently stand.
//!
//! - [`store`] checks an aspect that the network hands over and names the
//!   workflow that is to hold it; [`hold`] is that workflow, which persists
//!   nothing that was not validated; [`aspect`], [`entry`], [`content`] and
//!   [`address`] model what is held and how it is addressed.
//! - [`links`] resolves the current entry of every link of a query along its
//!   chain of updates and assembles the answer; [`response`] writes it as
//!   text; [`dht`] is an in-memory store and link index to run both against.
//! - [`entry_type`], [`network`], [`conductor`] and [`wasm_memory`] are the
//!   entry types and their names, the joining of a network, the requests of
//!   the signing interface and the memory shared with a guest.
//!
//! Everything is proved against its contract but the calls into other
//! crates, whose contracts are taken on trust: the SHA2-256 multihash and
//! its base58 text in [`address`], which are only named; the JSON string
//! literal in [`json`], which is stated character by character; and the
//! search for a regular expression in [`pattern`], which is only named.

pub mod address;
pub mod aspect;
pub mod conductor;
pub mod content;
pub mod dht;
pub mod entry;
pub mod entry_type;
pub mod error;
pub mod hold;
pub mod json;
pub mod links;
pub mod network;
pub mod pattern;
pub mod response;
pub mod store;
pub mod views;
pub mod wasm_memory;
