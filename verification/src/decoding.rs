//! Decoding V2X payloads into typed messages.
use vstd::prelude::*;

use crate::decoded::{DecodedCar, V2xMessage, VehicleDriveDirection};
use crate::decoder_input::{decoder_may_overrun, decoder_may_overrun_on, INPUT_ENDS_AFTER_KEY};
use crate::error::V2xError;
use crate::its::{
    acceleration_unavailable, altitude_unavailable, decode_cam_basic, decode_cam_vehicle,
    decoded_cam_basic, decoded_cam_vehicle, heading_unavailable, speed_unavailable,
    vehicle_length_unavailable, vehicle_width_unavailable, yaw_rate_unavailable,
};

verus! {

/// The header and basic-container fields of a received CAM, as raw ETSI integers.
#[derive(Debug, Clone, Copy, PartialEq, Eq, Structural)]
pub struct CamBasicRecord {
    pub station_id: u32,
    pub station_type: u8,
    pub latitude: i32,
    pub longitude: i32,
    pub altitude: i32,
}

/// The basic vehicle high-frequency fields of a received CAM, as raw ETSI integers; the
/// drive direction is the ASN.1 number of its `DriveDirection`.
#[derive(Debug, Clone, Copy, PartialEq, Eq, Structural)]
pub struct CamVehicleRecord {
    pub heading: u16,
    pub speed: u16,
    pub accel: i16,
    pub yaw_rate: i16,
    pub vehicle_length: u16,
    pub vehicle_width: u8,
    pub drive_direction: u8,
}

/// `raw`, or `None` when it is the value reserved for "unavailable".
pub open spec fn unless_unavailable<T>(raw: T, unavailable: T) -> Option<T> {
    if raw == unavailable {
        None
    } else {
        Some(raw)
    }
}

/// The drive direction with ASN.1 number `code` (0 forward, 1 backward, 2 unavailable).
pub open spec fn drive_direction_of(code: u8) -> VehicleDriveDirection {
    if code == 0 {
        VehicleDriveDirection::Forward
    } else if code == 1 {
        VehicleDriveDirection::Backward
    } else {
        VehicleDriveDirection::Unavailable
    }
}

/// The car that a CAM with these fields describes.
pub open spec fn spec_decoded_car(basic: CamBasicRecord, vehicle: CamVehicleRecord) -> DecodedCar {
    DecodedCar {
        station_id: basic.station_id,
        station_type: basic.station_type,
        latitude: basic.latitude,
        longitude: basic.longitude,
        altitude: unless_unavailable(basic.altitude, 800001i32),
        speed: unless_unavailable(vehicle.speed, 16383u16),
        heading: unless_unavailable(vehicle.heading, 3601u16),
        accel: unless_unavailable(vehicle.accel, 161i16),
        yaw_rate: unless_unavailable(vehicle.yaw_rate, 32767i16),
        vehicle_length: unless_unavailable(vehicle.vehicle_length, 1023u16),
        vehicle_width: unless_unavailable(vehicle.vehicle_width, 62u8),
        drive_direction: drive_direction_of(vehicle.drive_direction),
    }
}

/// What a received CAM is: a car, or a CAM whose high-frequency container is not a
/// vehicle's, which this library does not read.
#[derive(Debug, Clone, Copy, PartialEq, Eq, Structural)]
pub enum CamVariant {
    /// A vehicle broadcasting its position and kinematics.
    Car(DecodedCar),
    /// A CAM whose high-frequency container is not a vehicle's.
    Unsupported,
}

/// What a received CAM with these fields is: a car when its high-frequency container is a
/// vehicle's, `Unsupported` otherwise.
pub open spec fn spec_extract_from_cam(basic: CamBasicRecord, vehicle: Option<CamVehicleRecord>) -> CamVariant {
    match vehicle {
        Some(v) => CamVariant::Car(spec_decoded_car(basic, v)),
        None => CamVariant::Unsupported,
    }
}

/// Reads the car out of the fields of a received CAM; a CAM whose high-frequency container
/// is not a vehicle's is `Unsupported`.
pub fn extract_from_cam(basic: CamBasicRecord, vehicle: Option<CamVehicleRecord>) -> (r: CamVariant)
    ensures
        r == spec_extract_from_cam(basic, vehicle),
{
    match vehicle {
        None => CamVariant::Unsupported,
        Some(v) => {
            let drive_direction = if v.drive_direction == 0 {
                VehicleDriveDirection::Forward
            } else if v.drive_direction == 1 {
                VehicleDriveDirection::Backward
            } else {
                VehicleDriveDirection::Unavailable
            };
            let car = DecodedCar {
                station_id: basic.station_id,
                station_type: basic.station_type,
                latitude: basic.latitude,
                longitude: basic.longitude,
                altitude: if altitude_unavailable(basic.altitude) { None } else { Some(basic.altitude) },
                speed: if speed_unavailable(v.speed) { None } else { Some(v.speed) },
                heading: if heading_unavailable(v.heading) { None } else { Some(v.heading) },
                accel: if acceleration_unavailable(v.accel) { None } else { Some(v.accel) },
                yaw_rate: if yaw_rate_unavailable(v.yaw_rate) { None } else { Some(v.yaw_rate) },
                vehicle_length: if vehicle_length_unavailable(v.vehicle_length) { None } else { Some(v.vehicle_length) },
                vehicle_width: if vehicle_width_unavailable(v.vehicle_width) { None } else { Some(v.vehicle_width) },
                drive_direction,
            };
            CamVariant::Car(car)
        },
    }
}

/// Decoding keeps every value that is available: a CAM with a vehicle container is read as
/// the car with the CAM's station, type and position, its drive direction by ASN.1 number,
/// and each other value present exactly when it is not ETSI's "unavailable" value for it
/// (altitude 800001, speed 16383, heading 3601, acceleration 161, yaw rate 32767, length
/// 1023, width 62), in which case it is the received value itself.
pub proof fn law_decoding_keeps_available_values(basic: CamBasicRecord, v: CamVehicleRecord)
    ensures
        spec_extract_from_cam(basic, Some(v)) matches CamVariant::Car(car) && {
            &&& car.station_id == basic.station_id
            &&& car.station_type == basic.station_type
            &&& car.latitude == basic.latitude
            &&& car.longitude == basic.longitude
            &&& (car.altitude is None <==> basic.altitude == 800001) && (car.altitude matches Some(a) ==> a == basic.altitude)
            &&& (car.speed is None <==> v.speed == 16383) && (car.speed matches Some(x) ==> x == v.speed)
            &&& (car.heading is None <==> v.heading == 3601) && (car.heading matches Some(x) ==> x == v.heading)
            &&& (car.accel is None <==> v.accel == 161) && (car.accel matches Some(x) ==> x == v.accel)
            &&& (car.yaw_rate is None <==> v.yaw_rate == 32767) && (car.yaw_rate matches Some(x) ==> x == v.yaw_rate)
            &&& (car.vehicle_length is None <==> v.vehicle_length == 1023) && (car.vehicle_length matches Some(x) ==> x == v.vehicle_length)
            &&& (car.vehicle_width is None <==> v.vehicle_width == 62) && (car.vehicle_width matches Some(x) ==> x == v.vehicle_width)
            &&& (v.drive_direction == 0 ==> car.drive_direction == VehicleDriveDirection::Forward)
            &&& (v.drive_direction == 1 ==> car.drive_direction == VehicleDriveDirection::Backward)
            &&& (v.drive_direction >= 2 ==> car.drive_direction == VehicleDriveDirection::Unavailable)
        },
        spec_extract_from_cam(basic, None) == CamVariant::Unsupported,
{
}

/// The message that decoded bytes are read as: a message other than a CAM is refused, a
/// CAM is read by `spec_extract_from_cam`.
pub open spec fn spec_decode_v2x(basic: Option<CamBasicRecord>, vehicle: Option<CamVehicleRecord>) -> Result<
    V2xMessage,
    V2xError,
> {
    match basic {
        None => Err(V2xError::UnsupportedMessageType),
        Some(b) => match spec_extract_from_cam(b, vehicle) {
            CamVariant::Car(car) => Ok(V2xMessage::Car(car)),
            CamVariant::Unsupported => Err(V2xError::UnsupportedHighFrequencyContainer),
        },
    }
}

/// What decoding `bytes` gives: `Decode` for bytes kept away from the decoder (see
/// `decoder_may_overrun`) and for bytes that are no ITS message, with the decoder's
/// description; otherwise what `spec_decode_v2x` makes of the decoded fields.
pub open spec fn spec_decode_outcome(bytes: Seq<u8>, r: Result<V2xMessage, V2xError>) -> bool {
    if decoder_may_overrun(bytes) {
        r matches Err(V2xError::Decode(d)) && d@ == INPUT_ENDS_AFTER_KEY@
    } else {
        match decoded_cam_basic(bytes) {
            Err(detail) => r matches Err(V2xError::Decode(d)) && d@ == detail,
            Ok(basic) => r == spec_decode_v2x(basic, decoded_cam_vehicle(bytes)),
        }
    }
}

/// Decode a raw V2X byte payload into a typed [`V2xMessage`]. Bytes that are no ITS
/// message give `Decode` with the decoder's description, and so do bytes on which the
/// decoder would read past their end; an ITS message other than a CAM gives
/// `UnsupportedMessageType`; a CAM is read by `extract_from_cam`.
pub fn decode_v2x(bytes: &[u8]) -> (r: Result<V2xMessage, V2xError>)
    ensures
        spec_decode_outcome(bytes@, r),
{
    if decoder_may_overrun_on(bytes) {
        return Err(V2xError::Decode(String::from_str(INPUT_ENDS_AFTER_KEY)));
    }
    match decode_cam_basic(bytes) {
        Err(detail) => Err(V2xError::Decode(detail)),
        Ok(None) => Err(V2xError::UnsupportedMessageType),
        Ok(Some(basic)) => {
            let vehicle = decode_cam_vehicle(bytes);
            match extract_from_cam(basic, vehicle) {
                CamVariant::Car(car) => Ok(V2xMessage::Car(car)),
                CamVariant::Unsupported => Err(V2xError::UnsupportedHighFrequencyContainer),
            }
        },
    }
}

} // verus!
