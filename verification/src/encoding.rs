//! ASN.1 encoding rules for V2X payloads.
use vstd::prelude::*;

verus! {

/// Supported ASN.1 encoding rules for V2X message payloads.
#[derive(Debug, Clone, Copy, PartialEq, Eq, Hash, Structural)]
pub enum V2xEncoding {
    /// Unaligned Packed Encoding Rules.
    Uper,
    /// XML Encoding Rules.
    Xer,
    /// JSON Encoding Rules.
    Jer,
}

} // verus!
