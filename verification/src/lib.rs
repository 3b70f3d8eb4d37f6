//! Encoder for a drone remote-identification broadcast packet.
//!
//! Three fixed-width sub-messages (identity, location/vector, and
//! system/operator metadata) are packed into one sequenced, checksummed
//! 84-byte packet, which is then wrapped into a vendor-specific beacon
//! element together with a derived network name.

pub mod codec;
pub mod message;
pub mod base_message;
pub mod position_vector_message;
pub mod system_message;
pub mod sequence;
pub mod network_name;
pub mod packet_message;
pub mod beacon;
