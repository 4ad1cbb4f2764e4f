//! What can go wrong when encoding or decoding V2X messages.
use vstd::prelude::*;

verus! {

/// Errors of encoding and decoding V2X messages.
#[derive(Debug, PartialEq, Eq)]
pub enum V2xError {
    /// The ASN.1 encoder refused the CAM; holds its description.
    Encode(String),
    /// The bytes are not an ITS message; holds the decoder's description.
    Decode(String),
    /// A CAM whose high-frequency container is not a vehicle's.
    UnsupportedHighFrequencyContainer,
    /// An ITS message other than a CAM.
    UnsupportedMessageType,
}

/// The human-readable description of an error.
pub open spec fn v2x_error_text(e: V2xError) -> Seq<char> {
    match e {
        V2xError::Encode(detail) => "failed to encode CAM: "@ + detail@,
        V2xError::Decode(detail) => "decode error: "@ + detail@,
        V2xError::UnsupportedHighFrequencyContainer => "received CAM with unsupported high-frequency container"@,
        V2xError::UnsupportedMessageType => "unsupported V2X message type; only CAM is currently decoded"@,
    }
}

impl V2xError {
    /// The human-readable description of this error.
    pub fn message(&self) -> (m: String)
        ensures
            m@ == v2x_error_text(*self),
    {
        match self {
            V2xError::Encode(detail) => {
                let mut m = String::from_str("failed to encode CAM: ");
                m.append(detail.as_str());
                m
            },
            V2xError::Decode(detail) => {
                let mut m = String::from_str("decode error: ");
                m.append(detail.as_str());
                m
            },
            V2xError::UnsupportedHighFrequencyContainer => String::from_str(
                "received CAM with unsupported high-frequency container",
            ),
            V2xError::UnsupportedMessageType => String::from_str(
                "unsupported V2X message type; only CAM is currently decoded",
            ),
        }
    }
}

} // verus!
