//! Building, encoding and decoding of ETSI Cooperative Awareness Messages, and the
//! bookkeeping around publishing them from a traffic simulation and tracking them on a map.

pub mod cam;
pub mod clock;
pub mod decoded;
pub mod decoder_input;
pub mod decoding;
pub mod destination;
pub mod encoding;
pub mod error;
pub mod its;
pub mod registry;
pub mod station;
pub mod sumo;
pub mod text;
pub mod tracked_objects;
pub mod tracking;
