//! Support for pushing MPP work down to the storage layer.
//!
//! - [`encoded_ops`]: the hints and requests by which a planner tells a
//!   columnstore which work it may do on dictionary-encoded data.
//! - [`shardkey`]: the shard slot that a row of a sharded table belongs to.
//! - [`crc32`]: the checksum that shard slots are computed from.
//! - [`distribution`]: how evenly decimal keys spread over the slots.

pub mod crc32;
pub mod distribution;
pub mod encoded_ops;
pub mod shardkey;
