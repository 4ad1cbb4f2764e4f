//! Building ETSI Cooperative Awareness Messages from vehicle telemetry.
use c_its_parser::standards::cam_1_4_1::cam_pdu_descriptions::CAM;
use vstd::prelude::*;

use crate::decoded::VehicleDriveDirection;
use crate::decoded::V2xMessage;
use crate::decoding::{spec_decode_outcome, unless_unavailable, CamBasicRecord, CamVehicleRecord};
use crate::encoding::V2xEncoding;
use crate::error::V2xError;
use crate::decoder_input::{decoder_may_overrun, decoder_may_overrun_on};
use crate::its::{
    decode_cam_basic, decode_cam_extras, decode_cam_motion, decode_cam_position, decode_cam_shape,
    decode_cam_stamp, decode_cam_vehicle, decoded_cam_basic, decoded_cam_extras, decoded_cam_motion,
    decoded_cam_position, decoded_cam_shape, decoded_cam_stamp, decoded_cam_vehicle, encode_its_cam,
    encoding_view, its_basic_container, its_cam, its_curvature,
    its_curvature_calculation_mode, its_drive_direction, its_heading, its_high_frequency,
    its_longitudinal_acceleration, its_pdu_header, its_reference_position, its_speed,
    its_vehicle_length, its_yaw_rate,
};
use crate::station::{station_type_code, ItsStationType};

verus! {

/// CAM protocol version.
pub const CAM_PROTOCOL_VERSION: u8 = 2;

/// Message ID for Cooperative Awareness Message (CAM).
pub const CAM_MESSAGE_ID: u8 = 2;

/// Modulo value for ETSI ITS GenerationDeltaTime.
pub const GENERATION_DELTA_TIME_MODULO: u64 = 65_536;

/// ETSI ITS epoch: 2004-01-01T00:00:00 UTC, as Unix timestamp in milliseconds.
pub const ITS_EPOCH_UNIX_MS: u64 = 1_072_915_200_000;

/// Default semi-major/minor axis length of the position confidence ellipse (100 cm / 1.0 m).
pub const DEFAULT_SEMI_AXIS_LENGTH_CM: u16 = 100;

/// Default heading value for the confidence ellipse orientation (0 degrees).
pub const DEFAULT_CONF_ELLIPSE_HEADING_DEG: u16 = 0;

/// Default altitude value (0 meters).
pub const DEFAULT_ALTITUDE_VALUE: i32 = 0;

/// Default heading confidence (1: equal to or less than 1 degree).
pub const DEFAULT_HEADING_CONFIDENCE: u8 = 1;

/// Default speed confidence (1: equal to or less than 1 m/s).
pub const DEFAULT_SPEED_CONFIDENCE: u8 = 1;

/// Default vehicle length value in decimetres (40: 4.0 meters).
pub const DEFAULT_VEHICLE_LENGTH_DECIMETRES: u16 = 40;

/// Default vehicle width value in decimetres (18: 1.8 meters).
pub const DEFAULT_VEHICLE_WIDTH_DECIMETRES: u8 = 18;

/// Default acceleration confidence (1: equal to or less than 0.1 m/s²).
pub const DEFAULT_ACCELERATION_CONFIDENCE: u8 = 1;

/// Default curvature value (0).
pub const DEFAULT_CURVATURE_VALUE: i16 = 0;

/// Default yaw rate value (0).
pub const DEFAULT_YAW_RATE_VALUE: i16 = 0;

/// ASN.1 number of `AltitudeConfidence::unavailable`.
pub const ALTITUDE_CONFIDENCE_UNAVAILABLE: u8 = 15;

/// ASN.1 number of `VehicleLengthConfidenceIndication::noTrailerPresent`.
pub const VEHICLE_LENGTH_NO_TRAILER_PRESENT: u8 = 0;

/// ASN.1 number of `CurvatureConfidence::unavailable`.
pub const CURVATURE_CONFIDENCE_UNAVAILABLE: u8 = 7;

/// ASN.1 number of `CurvatureCalculationMode::yawRateNotUsed`.
pub const CURVATURE_CALCULATION_YAW_RATE_NOT_USED: u8 = 1;

/// ASN.1 number of `YawRateConfidence::unavailable`.
pub const YAW_RATE_CONFIDENCE_UNAVAILABLE: u8 = 8;

/// Telemetry data for a vehicle or station used to build a Cooperative Awareness Message
/// (CAM), with the kinematics already in the ETSI units of the message.
#[derive(Debug, Clone, Copy)]
pub struct CamTelemetry {
    /// Unique station identifier.
    pub station_id: u32,
    /// ETSI ITS station type classification.
    pub station_type: ItsStationType,
    /// Unix timestamp in milliseconds.
    pub timestamp_ms: u64,
    /// WGS-84 latitude in 0.1 microdegrees.
    pub latitude: i32,
    /// WGS-84 longitude in 0.1 microdegrees.
    pub longitude: i32,
    /// Speed in 0.01 m/s.
    pub speed: u16,
    /// Heading in 0.1 degrees.
    pub heading: u16,
    /// Longitudinal acceleration in 0.1 m/s².
    pub accel: i16,
}

/// The fields of a CAM that vary from message to message.
#[derive(Debug, Clone, Copy)]
pub struct CamFields {
    pub station_id: u32,
    pub station_type: u8,
    pub generation_delta_time: u16,
    pub latitude: i32,
    pub longitude: i32,
    pub speed: u16,
    pub heading: u16,
    pub accel: i16,
}

/// The ITS PDU header of a CAM.
#[derive(Debug, Clone, Copy, PartialEq, Eq, Structural)]
pub struct CamHeader {
    pub protocol_version: u8,
    pub message_id: u8,
    pub station_id: u32,
}

/// The basic container of a CAM: station type and reference position.
#[derive(Debug, Clone, Copy, PartialEq, Eq, Structural)]
pub struct CamBasicContainer {
    pub station_type: u8,
    pub latitude: i32,
    pub longitude: i32,
    pub semi_major_confidence: u16,
    pub semi_minor_confidence: u16,
    pub semi_major_orientation: u16,
    pub altitude_value: i32,
    /// ASN.1 number of the `AltitudeConfidence`.
    pub altitude_confidence: u8,
}

/// The basic vehicle high-frequency container of a CAM.
#[derive(Debug, Clone, Copy, PartialEq, Eq, Structural)]
pub struct CamHighFrequency {
    pub heading_value: u16,
    pub heading_confidence: u8,
    pub speed_value: u16,
    pub speed_confidence: u8,
    pub drive_direction: VehicleDriveDirection,
    pub vehicle_length_value: u16,
    /// ASN.1 number of the `VehicleLengthConfidenceIndication`.
    pub vehicle_length_confidence: u8,
    pub vehicle_width: u8,
    pub acceleration_value: i16,
    pub acceleration_confidence: u8,
    pub curvature_value: i16,
    /// ASN.1 number of the `CurvatureConfidence`.
    pub curvature_confidence: u8,
    /// ASN.1 number of the `CurvatureCalculationMode`.
    pub curvature_calculation_mode: u8,
    pub yaw_rate_value: i16,
    /// ASN.1 number of the `YawRateConfidence`.
    pub yaw_rate_confidence: u8,
}

/// The content of a CAM as this library sends it: header, generation time, basic container
/// and basic vehicle high-frequency container (no low-frequency or special container).
#[derive(Debug, Clone, Copy, PartialEq, Eq, Structural)]
pub struct CamPdu {
    pub header: CamHeader,
    pub generation_delta_time: u16,
    pub basic: CamBasicContainer,
    pub high_frequency: CamHighFrequency,
}

/// What an enumerated field whose ASN.1 number names no value is reported as.
pub const UNKNOWN_ENUMERATED_VALUE: &'static str = "enumerated value out of range";

/// The ASN.1 numbers of the enumerated fields of `pdu` name values that exist.
pub open spec fn enumerations_valid(pdu: CamPdu) -> bool {
    &&& pdu.basic.altitude_confidence <= 15
    &&& pdu.high_frequency.vehicle_length_confidence <= 4
    &&& pdu.high_frequency.curvature_confidence <= 7
    &&& pdu.high_frequency.curvature_calculation_mode <= 2
    &&& pdu.high_frequency.yaw_rate_confidence <= 8
}

/// The generation delta time of a CAM stamped at `timestamp_ms` (Unix milliseconds):
/// the milliseconds since the ITS epoch (none before it), modulo 65536.
pub open spec fn spec_generation_delta_time(timestamp_ms: u64) -> u16 {
    let since_epoch: int = if timestamp_ms >= ITS_EPOCH_UNIX_MS {
        timestamp_ms - ITS_EPOCH_UNIX_MS
    } else {
        0
    };
    (since_epoch % 65536) as u16
}

/// The generation delta time of a CAM stamped at `timestamp_ms` (Unix milliseconds).
pub fn generation_delta_time(timestamp_ms: u64) -> (gdt: u16)
    ensures
        gdt == spec_generation_delta_time(timestamp_ms),
{
    let its_timestamp_ms = timestamp_ms.saturating_sub(ITS_EPOCH_UNIX_MS);
    (its_timestamp_ms % GENERATION_DELTA_TIME_MODULO) as u16
}

/// The varying fields of the CAM for `telemetry`.
pub open spec fn spec_cam_fields(telemetry: CamTelemetry) -> CamFields {
    CamFields {
        station_id: telemetry.station_id,
        station_type: station_type_code(telemetry.station_type),
        generation_delta_time: spec_generation_delta_time(telemetry.timestamp_ms),
        latitude: telemetry.latitude,
        longitude: telemetry.longitude,
        speed: telemetry.speed,
        heading: telemetry.heading,
        accel: telemetry.accel,
    }
}

/// The varying fields of the CAM for `telemetry`.
pub fn cam_fields(telemetry: CamTelemetry) -> (fields: CamFields)
    ensures
        fields == spec_cam_fields(telemetry),
{
    CamFields {
        station_id: telemetry.station_id,
        station_type: telemetry.station_type.code(),
        generation_delta_time: generation_delta_time(telemetry.timestamp_ms),
        latitude: telemetry.latitude,
        longitude: telemetry.longitude,
        speed: telemetry.speed,
        heading: telemetry.heading,
        accel: telemetry.accel,
    }
}

/// The CAM that carries `fields`: every other field holds this library's default.
pub open spec fn spec_build_cam(fields: CamFields) -> CamPdu {
    CamPdu {
        header: CamHeader {
            protocol_version: CAM_PROTOCOL_VERSION,
            message_id: CAM_MESSAGE_ID,
            station_id: fields.station_id,
        },
        generation_delta_time: fields.generation_delta_time,
        basic: CamBasicContainer {
            station_type: fields.station_type,
            latitude: fields.latitude,
            longitude: fields.longitude,
            semi_major_confidence: DEFAULT_SEMI_AXIS_LENGTH_CM,
            semi_minor_confidence: DEFAULT_SEMI_AXIS_LENGTH_CM,
            semi_major_orientation: DEFAULT_CONF_ELLIPSE_HEADING_DEG,
            altitude_value: DEFAULT_ALTITUDE_VALUE,
            altitude_confidence: ALTITUDE_CONFIDENCE_UNAVAILABLE,
        },
        high_frequency: CamHighFrequency {
            heading_value: fields.heading,
            heading_confidence: DEFAULT_HEADING_CONFIDENCE,
            speed_value: fields.speed,
            speed_confidence: DEFAULT_SPEED_CONFIDENCE,
            drive_direction: VehicleDriveDirection::Forward,
            vehicle_length_value: DEFAULT_VEHICLE_LENGTH_DECIMETRES,
            vehicle_length_confidence: VEHICLE_LENGTH_NO_TRAILER_PRESENT,
            vehicle_width: DEFAULT_VEHICLE_WIDTH_DECIMETRES,
            acceleration_value: fields.accel,
            acceleration_confidence: DEFAULT_ACCELERATION_CONFIDENCE,
            curvature_value: DEFAULT_CURVATURE_VALUE,
            curvature_confidence: CURVATURE_CONFIDENCE_UNAVAILABLE,
            curvature_calculation_mode: CURVATURE_CALCULATION_YAW_RATE_NOT_USED,
            yaw_rate_value: DEFAULT_YAW_RATE_VALUE,
            yaw_rate_confidence: YAW_RATE_CONFIDENCE_UNAVAILABLE,
        },
    }
}

/// Assembles the CAM that carries `fields`.
pub fn build_cam(fields: CamFields) -> (pdu: CamPdu)
    ensures
        pdu == spec_build_cam(fields),
        enumerations_valid(pdu),
{
    let header = CamHeader {
        protocol_version: CAM_PROTOCOL_VERSION,
        message_id: CAM_MESSAGE_ID,
        station_id: fields.station_id,
    };
    let basic = CamBasicContainer {
        station_type: fields.station_type,
        latitude: fields.latitude,
        longitude: fields.longitude,
        semi_major_confidence: DEFAULT_SEMI_AXIS_LENGTH_CM,
        semi_minor_confidence: DEFAULT_SEMI_AXIS_LENGTH_CM,
        semi_major_orientation: DEFAULT_CONF_ELLIPSE_HEADING_DEG,
        altitude_value: DEFAULT_ALTITUDE_VALUE,
        altitude_confidence: ALTITUDE_CONFIDENCE_UNAVAILABLE,
    };
    let high_frequency = CamHighFrequency {
        heading_value: fields.heading,
        heading_confidence: DEFAULT_HEADING_CONFIDENCE,
        speed_value: fields.speed,
        speed_confidence: DEFAULT_SPEED_CONFIDENCE,
        drive_direction: VehicleDriveDirection::Forward,
        vehicle_length_value: DEFAULT_VEHICLE_LENGTH_DECIMETRES,
        vehicle_length_confidence: VEHICLE_LENGTH_NO_TRAILER_PRESENT,
        vehicle_width: DEFAULT_VEHICLE_WIDTH_DECIMETRES,
        acceleration_value: fields.accel,
        acceleration_confidence: DEFAULT_ACCELERATION_CONFIDENCE,
        curvature_value: DEFAULT_CURVATURE_VALUE,
        curvature_confidence: CURVATURE_CONFIDENCE_UNAVAILABLE,
        curvature_calculation_mode: CURVATURE_CALCULATION_YAW_RATE_NOT_USED,
        yaw_rate_value: DEFAULT_YAW_RATE_VALUE,
        yaw_rate_confidence: YAW_RATE_CONFIDENCE_UNAVAILABLE,
    };
    CamPdu { header, generation_delta_time: fields.generation_delta_time, basic, high_frequency }
}

/// Assembles the c-its-parser CAM that carries `pdu`: none when an enumerated field's ASN.1
/// number names no value.
fn its_cam_of(pdu: &CamPdu) -> (cam: Option<CAM>)
    ensures
        cam is Some <==> enumerations_valid(*pdu),
{
    let b = &pdu.basic;
    let hf = &pdu.high_frequency;
    let header = its_pdu_header(pdu.header.protocol_version, pdu.header.message_id, pdu.header.station_id);
    let position = match its_reference_position(b) {
        Some(p) => p,
        None => {
            return None;
        },
    };
    let basic = its_basic_container(b.station_type, position);
    let vehicle_length = match its_vehicle_length(hf.vehicle_length_value, hf.vehicle_length_confidence) {
        Some(l) => l,
        None => {
            return None;
        },
    };
    let curvature = match its_curvature(hf.curvature_value, hf.curvature_confidence) {
        Some(c) => c,
        None => {
            return None;
        },
    };
    let mode = match its_curvature_calculation_mode(hf.curvature_calculation_mode) {
        Some(m) => m,
        None => {
            return None;
        },
    };
    let yaw_rate = match its_yaw_rate(hf.yaw_rate_value, hf.yaw_rate_confidence) {
        Some(y) => y,
        None => {
            return None;
        },
    };
    let high_frequency = its_high_frequency(
        its_heading(hf.heading_value, hf.heading_confidence),
        its_speed(hf.speed_value, hf.speed_confidence),
        its_drive_direction(hf.drive_direction),
        vehicle_length,
        hf.vehicle_width,
        its_longitudinal_acceleration(hf.acceleration_value, hf.acceleration_confidence),
        curvature,
        mode,
        yaw_rate,
    );
    Some(its_cam(header, pdu.generation_delta_time, basic, high_frequency))
}

/// What encoded bytes that do not decode to the CAM they were made from are reported as.
pub const ENCODED_CAM_MISMATCH: &'static str = "encoded CAM does not decode to the CAM it was built from";

/// The header fields and generation delta time of a CAM, as raw ETSI integers.
#[derive(Debug, Clone, Copy, PartialEq, Eq, Structural)]
pub struct CamStamp {
    pub protocol_version: u8,
    pub message_id: u8,
    pub station_id: u32,
    pub generation_delta_time: u16,
}

/// Heading, speed, drive direction (its ASN.1 number) and longitudinal acceleration of a
/// basic vehicle high-frequency container, as raw ETSI integers.
#[derive(Debug, Clone, Copy, PartialEq, Eq, Structural)]
pub struct CamMotion {
    pub heading_value: u16,
    pub heading_confidence: u8,
    pub speed_value: u16,
    pub speed_confidence: u8,
    pub drive_direction: u8,
    pub acceleration_value: i16,
    pub acceleration_confidence: u8,
}

/// Vehicle length and width, curvature, curvature calculation mode and yaw rate of a basic
/// vehicle high-frequency container, as raw ETSI integers; enumerated values by their
/// ASN.1 numbers.
#[derive(Debug, Clone, Copy, PartialEq, Eq, Structural)]
pub struct CamShape {
    pub vehicle_length_value: u16,
    pub vehicle_length_confidence: u8,
    pub vehicle_width: u8,
    pub curvature_value: i16,
    pub curvature_confidence: u8,
    pub curvature_calculation_mode: u8,
    pub yaw_rate_value: i16,
    pub yaw_rate_confidence: u8,
}

/// Which optional parts of a CAM are absent: the low-frequency and special-vehicle
/// containers, and the optional fields of a basic vehicle high-frequency container.
#[derive(Debug, Clone, Copy, PartialEq, Eq, Structural)]
pub struct CamExtras {
    pub low_frequency_absent: bool,
    pub special_vehicle_absent: bool,
    pub vehicle_options_absent: bool,
}

/// The header fields and generation delta time of `pdu`.
pub open spec fn stamp_of(pdu: CamPdu) -> CamStamp {
    CamStamp {
        protocol_version: pdu.header.protocol_version,
        message_id: pdu.header.message_id,
        station_id: pdu.header.station_id,
        generation_delta_time: pdu.generation_delta_time,
    }
}

/// The ASN.1 number of a drive direction (0 forward, 1 backward, 2 unavailable).
pub open spec fn drive_direction_code(d: VehicleDriveDirection) -> u8 {
    match d {
        VehicleDriveDirection::Forward => 0,
        VehicleDriveDirection::Backward => 1,
        VehicleDriveDirection::Unavailable => 2,
    }
}

/// The heading, speed, drive direction and acceleration of `pdu`.
pub open spec fn motion_of(pdu: CamPdu) -> CamMotion {
    CamMotion {
        heading_value: pdu.high_frequency.heading_value,
        heading_confidence: pdu.high_frequency.heading_confidence,
        speed_value: pdu.high_frequency.speed_value,
        speed_confidence: pdu.high_frequency.speed_confidence,
        drive_direction: drive_direction_code(pdu.high_frequency.drive_direction),
        acceleration_value: pdu.high_frequency.acceleration_value,
        acceleration_confidence: pdu.high_frequency.acceleration_confidence,
    }
}

/// The vehicle size, curvature and yaw rate of `pdu`.
pub open spec fn shape_of(pdu: CamPdu) -> CamShape {
    CamShape {
        vehicle_length_value: pdu.high_frequency.vehicle_length_value,
        vehicle_length_confidence: pdu.high_frequency.vehicle_length_confidence,
        vehicle_width: pdu.high_frequency.vehicle_width,
        curvature_value: pdu.high_frequency.curvature_value,
        curvature_confidence: pdu.high_frequency.curvature_confidence,
        curvature_calculation_mode: pdu.high_frequency.curvature_calculation_mode,
        yaw_rate_value: pdu.high_frequency.yaw_rate_value,
        yaw_rate_confidence: pdu.high_frequency.yaw_rate_confidence,
    }
}

/// A CAM as this library sends it has none of the optional parts.
pub open spec fn no_extras() -> CamExtras {
    CamExtras { low_frequency_absent: true, special_vehicle_absent: true, vehicle_options_absent: true }
}

/// The header and basic-container fields that the packet decoder reads from `pdu`.
pub open spec fn basic_record_of(pdu: CamPdu) -> CamBasicRecord {
    CamBasicRecord {
        station_id: pdu.header.station_id,
        station_type: pdu.basic.station_type,
        latitude: pdu.basic.latitude,
        longitude: pdu.basic.longitude,
        altitude: pdu.basic.altitude_value,
    }
}

/// The basic vehicle high-frequency fields that the packet decoder reads from `pdu`.
pub open spec fn vehicle_record_of(pdu: CamPdu) -> CamVehicleRecord {
    CamVehicleRecord {
        heading: pdu.high_frequency.heading_value,
        speed: pdu.high_frequency.speed_value,
        accel: pdu.high_frequency.acceleration_value,
        yaw_rate: pdu.high_frequency.yaw_rate_value,
        vehicle_length: pdu.high_frequency.vehicle_length_value,
        vehicle_width: pdu.high_frequency.vehicle_width,
        drive_direction: drive_direction_code(pdu.high_frequency.drive_direction),
    }
}

/// `bytes` are a CAM in `encoding` that holds every field of `pdu` and none of the
/// optional parts, and the packet decoder reads them as a CAM with the values of `pdu`.
pub open spec fn carries(bytes: Seq<u8>, pdu: CamPdu, encoding: V2xEncoding) -> bool {
    &&& decoded_cam_stamp(bytes, encoding) == Some(stamp_of(pdu))
    &&& decoded_cam_position(bytes, encoding) == Some(pdu.basic)
    &&& decoded_cam_motion(bytes, encoding) == Some(motion_of(pdu))
    &&& decoded_cam_shape(bytes, encoding) == Some(shape_of(pdu))
    &&& decoded_cam_extras(bytes, encoding) == Some(no_extras())
    &&& !decoder_may_overrun(bytes)
    &&& decoded_cam_basic(bytes) == Ok::<Option<CamBasicRecord>, Seq<char>>(Some(basic_record_of(pdu)))
    &&& decoded_cam_vehicle(bytes) == Some(vehicle_record_of(pdu))
}

/// The ASN.1 number of a drive direction.
fn drive_direction_number(d: VehicleDriveDirection) -> (n: u8)
    ensures
        n == drive_direction_code(d),
{
    match d {
        VehicleDriveDirection::Forward => 0,
        VehicleDriveDirection::Backward => 1,
        VehicleDriveDirection::Unavailable => 2,
    }
}

/// Whether `bytes`, read with the codec of `encoding`, are a CAM holding every field of
/// `pdu` and none of the optional parts.
fn holds_pdu(bytes: &[u8], pdu: &CamPdu, encoding: V2xEncoding) -> (r: bool)
    ensures
        r == {
            &&& decoded_cam_stamp(bytes@, encoding) == Some(stamp_of(*pdu))
            &&& decoded_cam_position(bytes@, encoding) == Some(pdu.basic)
            &&& decoded_cam_motion(bytes@, encoding) == Some(motion_of(*pdu))
            &&& decoded_cam_shape(bytes@, encoding) == Some(shape_of(*pdu))
            &&& decoded_cam_extras(bytes@, encoding) == Some(no_extras())
        },
{
    let hf = &pdu.high_frequency;
    let stamp = CamStamp {
        protocol_version: pdu.header.protocol_version,
        message_id: pdu.header.message_id,
        station_id: pdu.header.station_id,
        generation_delta_time: pdu.generation_delta_time,
    };
    let motion = CamMotion {
        heading_value: hf.heading_value,
        heading_confidence: hf.heading_confidence,
        speed_value: hf.speed_value,
        speed_confidence: hf.speed_confidence,
        drive_direction: drive_direction_number(hf.drive_direction),
        acceleration_value: hf.acceleration_value,
        acceleration_confidence: hf.acceleration_confidence,
    };
    let shape = CamShape {
        vehicle_length_value: hf.vehicle_length_value,
        vehicle_length_confidence: hf.vehicle_length_confidence,
        vehicle_width: hf.vehicle_width,
        curvature_value: hf.curvature_value,
        curvature_confidence: hf.curvature_confidence,
        curvature_calculation_mode: hf.curvature_calculation_mode,
        yaw_rate_value: hf.yaw_rate_value,
        yaw_rate_confidence: hf.yaw_rate_confidence,
    };
    let extras = CamExtras { low_frequency_absent: true, special_vehicle_absent: true, vehicle_options_absent: true };
    let stamp_matches = match decode_cam_stamp(bytes, encoding) {
        Some(d) => d == stamp,
        None => false,
    };
    let position_matches = match decode_cam_position(bytes, encoding) {
        Some(d) => d == pdu.basic,
        None => false,
    };
    let motion_matches = match decode_cam_motion(bytes, encoding) {
        Some(d) => d == motion,
        None => false,
    };
    let shape_matches = match decode_cam_shape(bytes, encoding) {
        Some(d) => d == shape,
        None => false,
    };
    let extras_match = match decode_cam_extras(bytes, encoding) {
        Some(d) => d == extras,
        None => false,
    };
    stamp_matches && position_matches && motion_matches && shape_matches && extras_match
}

/// Whether the packet decoder reads `bytes` as a CAM with the values of `pdu`.
fn reads_as_pdu(bytes: &[u8], pdu: &CamPdu) -> (r: bool)
    ensures
        r == {
            &&& !decoder_may_overrun(bytes@)
            &&& decoded_cam_basic(bytes@) == Ok::<Option<CamBasicRecord>, Seq<char>>(Some(basic_record_of(*pdu)))
            &&& decoded_cam_vehicle(bytes@) == Some(vehicle_record_of(*pdu))
        },
{
    if decoder_may_overrun_on(bytes) {
        return false;
    }
    let hf = &pdu.high_frequency;
    let expected_basic = CamBasicRecord {
        station_id: pdu.header.station_id,
        station_type: pdu.basic.station_type,
        latitude: pdu.basic.latitude,
        longitude: pdu.basic.longitude,
        altitude: pdu.basic.altitude_value,
    };
    let expected_vehicle = CamVehicleRecord {
        heading: hf.heading_value,
        speed: hf.speed_value,
        accel: hf.acceleration_value,
        yaw_rate: hf.yaw_rate_value,
        vehicle_length: hf.vehicle_length_value,
        vehicle_width: hf.vehicle_width,
        drive_direction: drive_direction_number(hf.drive_direction),
    };
    let basic_matches = match decode_cam_basic(bytes) {
        Ok(Some(basic)) => basic == expected_basic,
        _ => false,
    };
    let vehicle_matches = match decode_cam_vehicle(bytes) {
        Some(vehicle) => vehicle == expected_vehicle,
        None => false,
    };
    basic_matches && vehicle_matches
}

/// Whether `bytes` are a CAM in `encoding` that carries `pdu`.
fn carries_pdu(bytes: &Vec<u8>, pdu: &CamPdu, encoding: V2xEncoding) -> (r: bool)
    ensures
        r == carries(bytes@, *pdu, encoding),
{
    holds_pdu(bytes.as_slice(), pdu, encoding) && reads_as_pdu(bytes.as_slice(), pdu)
}

/// What becomes of the encoder's result `encoded` for `pdu`: its error as an `Encode`
/// error, its bytes when they are a CAM in `encoding` that carries `pdu`, otherwise an
/// `Encode` error that says so.
pub open spec fn spec_accept_encoded(encoded: Result<Seq<u8>, Seq<char>>, pdu: CamPdu, encoding: V2xEncoding, r: Result<Vec<u8>, V2xError>) -> bool {
    match encoded {
        Err(detail) => r matches Err(V2xError::Encode(d)) && d@ == detail,
        Ok(bytes) => if carries(bytes, pdu, encoding) {
            r matches Ok(b) && b@ == bytes
        } else {
            r matches Err(V2xError::Encode(d)) && d@ == ENCODED_CAM_MISMATCH@
        },
    }
}

/// Takes the encoder's result for `pdu` in `encoding`: its error becomes an `Encode`
/// error; its bytes are read back and returned only when they are a CAM in `encoding` that
/// carries `pdu`.
pub fn accept_encoded_cam(encoded: Result<Vec<u8>, String>, pdu: &CamPdu, encoding: V2xEncoding) -> (r: Result<Vec<u8>, V2xError>)
    ensures
        spec_accept_encoded(encoding_view(encoded), *pdu, encoding, r),
{
    match encoded {
        Err(detail) => Err(V2xError::Encode(detail)),
        Ok(bytes) => {
            if carries_pdu(&bytes, pdu, encoding) {
                Ok(bytes)
            } else {
                Err(V2xError::Encode(String::from_str(ENCODED_CAM_MISMATCH)))
            }
        },
    }
}

/// `raw` is what the c-its-parser encoder gives, under the rules of `encoding`, for a CAM
/// that `its_cam_of` assembled from `pdu`.
pub closed spec fn encoder_gives(pdu: CamPdu, encoding: V2xEncoding, raw: Result<Vec<u8>, String>) -> bool {
    exists|cam: CAM|
        #![trigger call_ensures(its_cam_of, (&pdu,), Some(cam)), call_ensures(encode_its_cam, (cam, encoding), raw)]
        call_ensures(its_cam_of, (&pdu,), Some(cam)) && call_ensures(encode_its_cam, (cam, encoding), raw)
}

/// Encoding fails only where the encoder refused or its bytes did not read back as `pdu`:
/// given what the encoder gave, the outcome is `Ok` exactly when those bytes carry `pdu`,
/// and then they are the bytes returned; an error holds the encoder's own text, or the
/// read-back text when the encoder gave bytes.
pub proof fn law_encoding_fails_only_for_the_encoder(
    pdu: CamPdu,
    encoding: V2xEncoding,
    raw: Result<Vec<u8>, String>,
    r: Result<Vec<u8>, V2xError>,
)
    requires
        spec_accept_encoded(encoding_view(raw), pdu, encoding, r),
    ensures
        r is Ok <==> (raw matches Ok(b) && carries(b@, pdu, encoding)),
        r matches Ok(b) ==> raw matches Ok(e) && b@ == e@,
        r matches Err(V2xError::Encode(d)) ==> {
            ||| raw matches Err(t) && d@ == t@
            ||| raw is Ok && d@ == ENCODED_CAM_MISMATCH@
        },
        r is Err ==> r matches Err(V2xError::Encode(_)),
{
}

/// What encoding `pdu` in `encoding` can give: an `Encode` error exactly when an enumerated
/// field's ASN.1 number names no value, with the text that says so; otherwise an `Encode`
/// error, or bytes that are a CAM in `encoding` carrying `pdu`.
pub open spec fn spec_encode_cam_pdu(pdu: CamPdu, encoding: V2xEncoding, r: Result<Vec<u8>, V2xError>) -> bool {
    if enumerations_valid(pdu) {
        match r {
            Ok(bytes) => carries(bytes@, pdu, encoding),
            Err(e) => e is Encode,
        }
    } else {
        r matches Err(V2xError::Encode(d)) && d@ == UNKNOWN_ENUMERATED_VALUE@
    }
}

/// Encodes `pdu` with the given rules. An enumerated field whose ASN.1 number names no
/// value, or a value the encoder refuses, gives an `Encode` error. The encoded bytes are
/// read back with the same rules and returned only when they hold every field of `pdu`.
pub fn encode_cam_pdu(pdu: &CamPdu, encoding: V2xEncoding) -> (r: Result<Vec<u8>, V2xError>)
    ensures
        spec_encode_cam_pdu(*pdu, encoding, r),
        enumerations_valid(*pdu) ==> exists|raw: Result<Vec<u8>, String>|
            encoder_gives(*pdu, encoding, raw) && spec_accept_encoded(encoding_view(raw), *pdu, encoding, r),
{
    match its_cam_of(pdu) {
        None => Err(V2xError::Encode(String::from_str(UNKNOWN_ENUMERATED_VALUE))),
        Some(cam) => {
            let ghost built = cam;
            let raw = encode_its_cam(cam, encoding);
            let ghost given = raw;
            assert(encoder_gives(*pdu, encoding, given)) by {
                assert(call_ensures(its_cam_of, (pdu,), Some(built)));
                assert(call_ensures(encode_its_cam, (built, encoding), given));
            }
            accept_encoded_cam(raw, pdu, encoding)
        },
    }
}

/// Builds the CAM for `telemetry` and encodes it with the given rules. The bytes are read
/// back before they are returned: a success holds bytes that are a CAM in `encoding`
/// carrying every field that `build_cam` places for `telemetry`, its generation delta
/// time among them.
pub fn build_and_encode_cam(telemetry: CamTelemetry, encoding: V2xEncoding) -> (r: Result<Vec<u8>, V2xError>)
    ensures
        spec_encode_cam_pdu(spec_build_cam(spec_cam_fields(telemetry)), encoding, r),
        enumerations_valid(spec_build_cam(spec_cam_fields(telemetry))),
        exists|raw: Result<Vec<u8>, String>|
            encoder_gives(spec_build_cam(spec_cam_fields(telemetry)), encoding, raw)
                && spec_accept_encoded(encoding_view(raw), spec_build_cam(spec_cam_fields(telemetry)), encoding, r),
{
    let fields = cam_fields(telemetry);
    let pdu = build_cam(fields);
    encode_cam_pdu(&pdu, encoding)
}

/// What is encoded is what is read back: bytes that carry the CAM built for `telemetry`
/// decode to the car of that telemetry, with its station, position and kinematics, each
/// kinematic value `None` only when it is ETSI's "unavailable" value.
pub proof fn law_encoded_telemetry_decodes_to_its_car(
    telemetry: CamTelemetry,
    encoding: V2xEncoding,
    bytes: Seq<u8>,
    r: Result<V2xMessage, V2xError>,
)
    requires
        carries(bytes, spec_build_cam(spec_cam_fields(telemetry)), encoding),
        spec_decode_outcome(bytes, r),
    ensures
        r matches Ok(V2xMessage::Car(car)) && {
            &&& car.station_id == telemetry.station_id
            &&& car.station_type == station_type_code(telemetry.station_type)
            &&& car.latitude == telemetry.latitude
            &&& car.longitude == telemetry.longitude
            &&& car.speed == unless_unavailable(telemetry.speed, 16383u16)
            &&& car.heading == unless_unavailable(telemetry.heading, 3601u16)
            &&& car.accel == unless_unavailable(telemetry.accel, 161i16)
            &&& car.altitude == Some(DEFAULT_ALTITUDE_VALUE)
            &&& car.drive_direction == VehicleDriveDirection::Forward
        },
{
}

} // verus!
