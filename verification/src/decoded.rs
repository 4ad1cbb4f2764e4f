//! Decoded V2X messages, with the ETSI values as they travel on the wire.
use vstd::prelude::*;

verus! {

/// Direction of travel reported in a CAM high-frequency container.
#[derive(Debug, Clone, Copy, PartialEq, Eq, Hash, Structural)]
pub enum VehicleDriveDirection {
    /// Vehicle is moving forward.
    Forward,
    /// Vehicle is moving in reverse.
    Backward,
    /// Direction is not available.
    Unavailable,
}

/// Decoded representation of a single vehicle, extracted from a CAM payload. Every value is
/// the ETSI integer in the unit that ETSI TS 102 894-2 gives it; `None` stands for the
/// value that ETSI reserves for "unavailable".
#[derive(Debug, Clone, Copy, PartialEq, Eq, Structural)]
pub struct DecodedCar {
    /// Unique ETSI ITS station identifier.
    pub station_id: u32,
    /// Raw ETSI station-type code (e.g. `5` = passenger car).
    pub station_type: u8,
    /// WGS-84 latitude in 0.1 microdegrees.
    pub latitude: i32,
    /// WGS-84 longitude in 0.1 microdegrees.
    pub longitude: i32,
    /// Altitude in centimetres.
    pub altitude: Option<i32>,
    /// Speed in 0.01 m/s.
    pub speed: Option<u16>,
    /// Heading clockwise from true north in 0.1 degrees.
    pub heading: Option<u16>,
    /// Longitudinal acceleration in 0.1 m/s².
    pub accel: Option<i16>,
    /// Yaw rate in 0.01 degrees per second.
    pub yaw_rate: Option<i16>,
    /// Vehicle length in decimetres.
    pub vehicle_length: Option<u16>,
    /// Vehicle width in decimetres.
    pub vehicle_width: Option<u8>,
    /// Drive direction (forward / backward / unavailable).
    pub drive_direction: VehicleDriveDirection,
}

/// Top-level decoded V2X message.
#[derive(Debug, Clone, Copy, PartialEq, Eq, Structural)]
#[non_exhaustive]
pub enum V2xMessage {
    /// A vehicle broadcasting its position and kinematics via a CAM.
    Car(DecodedCar),
}

/// The station that sent a message.
pub open spec fn message_station_id(m: V2xMessage) -> u32 {
    match m {
        V2xMessage::Car(car) => car.station_id,
    }
}

impl V2xMessage {
    /// The station whose message this is, by which it is tracked.
    pub fn station_id(&self) -> (id: u32)
        ensures
            id == message_station_id(*self),
    {
        match self {
            V2xMessage::Car(car) => car.station_id,
        }
    }
}

} // verus!
