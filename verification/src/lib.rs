//! Ingestion of compact binary sensor advertisements and their republication
//! as structured, discoverable properties over a message bus.
//!
//! The crate is organised around four pieces:
//! - a decoder for the binary advertisement payloads, and the mapper
//!   from decoded readings to property descriptors ([`bthome`]),
//! - a device registry that brackets every topology change between the
//!   Init and Ready lifecycle states and emits the exact publish
//!   sequences ([`device`]),
//! - text encoders for everything that goes onto the bus ([`payload`],
//!   [`attributes`], [`numfmt`], [`utils`]),
//! - models for the two auxiliary sensor sources: schema-described
//!   devices ([`zigbee2mqtt`]) and serial frames ([`zstack`]).
//!
//! Nothing here performs I/O: operations that have a bus-visible
//! effect return the ordered publish commands for the caller to
//! perform.

use vstd::prelude::*;

pub mod attributes;
pub mod bthome;
pub mod device;
pub mod numfmt;
pub mod payload;
pub mod utils;
pub mod zigbee2mqtt;
pub mod zstack;

verus! {

/// Root of every topic published by this crate.
pub const BASE_TOPIC: &'static str = "homie";

/// Version string of the discovery convention spoken on the bus.
pub const HOMIE_VERSION: &'static str = "4.0.0";

} // verus!
