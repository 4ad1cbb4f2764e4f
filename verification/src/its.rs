//! The boundary to the `c-its-parser` crate: its message types, carried through verified
//! code as opaque values, and the calls that build, encode, decode and read them.
use c_its_parser::standards::cam_1_4_1::cam_pdu_descriptions::{
    BasicContainer, BasicVehicleContainerHighFrequency, CamParameters, CoopAwareness,
    GenerationDeltaTime, HighFrequencyContainer, CAM,
};
use c_its_parser::standards::cdd_1_3_1_1::its_container::{
    AccelerationConfidence, Altitude, AltitudeConfidence, AltitudeValue, Curvature,
    CurvatureCalculationMode, CurvatureConfidence, CurvatureValue, DriveDirection, Heading,
    HeadingConfidence, HeadingValue, ItsPduHeader, Latitude, Longitude, LongitudinalAcceleration,
    LongitudinalAccelerationValue, PosConfidenceEllipse, ReferencePosition, SemiAxisLength, Speed,
    SpeedConfidence, SpeedValue, StationID, StationType, VehicleLength,
    VehicleLengthConfidenceIndication, VehicleLengthValue, VehicleWidth, YawRate,
    YawRateConfidence, YawRateValue,
};
use c_its_parser::{EncodingRules, Headers, ItsMessage};
use rasn::types::Enumerated;
use vstd::prelude::*;

use crate::cam::{CamBasicContainer, CamExtras, CamMotion, CamShape, CamStamp};
use crate::decoder_input::decoder_may_overrun;
use crate::decoded::VehicleDriveDirection;
use crate::decoding::{CamBasicRecord, CamVehicleRecord};
use crate::encoding::V2xEncoding;

verus! {

/// `c_its_parser`'s CAM PDU (`cam_1_4_1::cam_pdu_descriptions::CAM`).
#[verifier::external_type_specification]
#[verifier::external_body]
pub struct ExCam(CAM);

/// `ItsPduHeader` of CDD 1.3.1.
#[verifier::external_type_specification]
#[verifier::external_body]
pub struct ExItsPduHeader(ItsPduHeader);

/// `ReferencePosition` of CDD 1.3.1.
#[verifier::external_type_specification]
#[verifier::external_body]
pub struct ExReferencePosition(ReferencePosition);

/// `BasicContainer` of the CAM.
#[verifier::external_type_specification]
#[verifier::external_body]
pub struct ExBasicContainer(BasicContainer);

/// `BasicVehicleContainerHighFrequency` of the CAM.
#[verifier::external_type_specification]
#[verifier::external_body]
pub struct ExBasicVehicleContainerHighFrequency(BasicVehicleContainerHighFrequency);

/// `Heading` of CDD 1.3.1.
#[verifier::external_type_specification]
#[verifier::external_body]
pub struct ExHeading(Heading);

/// `Speed` of CDD 1.3.1.
#[verifier::external_type_specification]
#[verifier::external_body]
pub struct ExSpeed(Speed);

/// `VehicleLength` of CDD 1.3.1.
#[verifier::external_type_specification]
#[verifier::external_body]
pub struct ExVehicleLength(VehicleLength);

/// `LongitudinalAcceleration` of CDD 1.3.1.
#[verifier::external_type_specification]
#[verifier::external_body]
pub struct ExLongitudinalAcceleration(LongitudinalAcceleration);

/// `Curvature` of CDD 1.3.1.
#[verifier::external_type_specification]
#[verifier::external_body]
pub struct ExCurvature(Curvature);

/// `YawRate` of CDD 1.3.1.
#[verifier::external_type_specification]
#[verifier::external_body]
pub struct ExYawRate(YawRate);

/// `DriveDirection` of CDD 1.3.1.
#[verifier::external_type_specification]
#[verifier::external_body]
pub struct ExDriveDirection(DriveDirection);

/// `CurvatureCalculationMode` of CDD 1.3.1.
#[verifier::external_type_specification]
#[verifier::external_body]
pub struct ExCurvatureCalculationMode(CurvatureCalculationMode);

/// `ItsPduHeader::new` with `StationID(station_id)`. The result is opaque: nothing is stated.
#[verifier::external_body]
pub(crate) fn its_pdu_header(protocol_version: u8, message_id: u8, station_id: u32) -> (h: ItsPduHeader) {
    ItsPduHeader::new(protocol_version, message_id, StationID(station_id))
}

/// `ReferencePosition::new` from the position, confidence ellipse and altitude of `b`;
/// the altitude confidence is `AltitudeConfidence::from_discriminant` (rasn's `Enumerated`)
/// of `b.altitude_confidence`, which exists for the ASN.1 numbers 0 to 15 only. The
/// position itself is opaque: only when there is one is stated.
#[verifier::external_body]
pub(crate) fn its_reference_position(b: &CamBasicContainer) -> (p: Option<ReferencePosition>)
    ensures
        p is Some <==> b.altitude_confidence <= 15,
{
    let ellipse = PosConfidenceEllipse::new(
        SemiAxisLength(b.semi_major_confidence),
        SemiAxisLength(b.semi_minor_confidence),
        HeadingValue(b.semi_major_orientation),
    );
    match AltitudeConfidence::from_discriminant(b.altitude_confidence as isize) {
        Some(c) => Some(ReferencePosition::new(Latitude(b.latitude), Longitude(b.longitude), ellipse, Altitude::new(AltitudeValue(b.altitude_value), c))),
        None => None,
    }
}

/// `BasicContainer::new` with `StationType(station_type)`. The result is opaque.
#[verifier::external_body]
pub(crate) fn its_basic_container(station_type: u8, position: ReferencePosition) -> (b: BasicContainer) {
    BasicContainer::new(StationType(station_type), position)
}

/// `Heading::new` from raw value and confidence. The result is opaque.
#[verifier::external_body]
pub(crate) fn its_heading(value: u16, confidence: u8) -> (h: Heading) {
    Heading::new(HeadingValue(value), HeadingConfidence(confidence))
}

/// `Speed::new` from raw value and confidence. The result is opaque.
#[verifier::external_body]
pub(crate) fn its_speed(value: u16, confidence: u8) -> (s: Speed) {
    Speed::new(SpeedValue(value), SpeedConfidence(confidence))
}

/// `VehicleLength::new`; the confidence indication is
/// `VehicleLengthConfidenceIndication::from_discriminant(indication)`, which exists for
/// the ASN.1 numbers 0 to 4 only. The length itself is opaque.
#[verifier::external_body]
pub(crate) fn its_vehicle_length(value: u16, indication: u8) -> (l: Option<VehicleLength>)
    ensures
        l is Some <==> indication <= 4,
{
    match VehicleLengthConfidenceIndication::from_discriminant(indication as isize) {
        Some(i) => Some(VehicleLength::new(VehicleLengthValue(value), i)),
        None => None,
    }
}

/// `LongitudinalAcceleration::new` from raw value and confidence. The result is opaque.
#[verifier::external_body]
pub(crate) fn its_longitudinal_acceleration(value: i16, confidence: u8) -> (a: LongitudinalAcceleration) {
    LongitudinalAcceleration::new(LongitudinalAccelerationValue(value), AccelerationConfidence(confidence))
}

/// `Curvature::new`; the confidence is `CurvatureConfidence::from_discriminant(confidence)`,
/// which exists for the ASN.1 numbers 0 to 7 only. The curvature itself is opaque.
#[verifier::external_body]
pub(crate) fn its_curvature(value: i16, confidence: u8) -> (c: Option<Curvature>)
    ensures
        c is Some <==> confidence <= 7,
{
    match CurvatureConfidence::from_discriminant(confidence as isize) {
        Some(conf) => Some(Curvature::new(CurvatureValue(value), conf)),
        None => None,
    }
}

/// `YawRate::new`; the confidence is `YawRateConfidence::from_discriminant(confidence)`,
/// which exists for the ASN.1 numbers 0 to 8 only. The yaw rate itself is opaque.
#[verifier::external_body]
pub(crate) fn its_yaw_rate(value: i16, confidence: u8) -> (y: Option<YawRate>)
    ensures
        y is Some <==> confidence <= 8,
{
    match YawRateConfidence::from_discriminant(confidence as isize) {
        Some(conf) => Some(YawRate::new(YawRateValue(value), conf)),
        None => None,
    }
}

/// `CurvatureCalculationMode::from_discriminant(code)`, which exists for the ASN.1 numbers
/// 0 to 2 only (yawRateUsed, yawRateNotUsed, unavailable). The mode itself is opaque.
#[verifier::external_body]
pub(crate) fn its_curvature_calculation_mode(code: u8) -> (m: Option<CurvatureCalculationMode>)
    ensures
        m is Some <==> code <= 2,
{
    CurvatureCalculationMode::from_discriminant(code as isize)
}

/// The `DriveDirection` variant for a drive direction: forward, backward or unavailable.
/// The result is opaque.
#[verifier::external_body]
pub(crate) fn its_drive_direction(d: VehicleDriveDirection) -> (r: DriveDirection) {
    match d {
        VehicleDriveDirection::Forward => DriveDirection::forward,
        VehicleDriveDirection::Backward => DriveDirection::backward,
        VehicleDriveDirection::Unavailable => DriveDirection::unavailable,
    }
}

/// `BasicVehicleContainerHighFrequency::new` with `VehicleWidth(vehicle_width)` and none of
/// the optional fields. The result is opaque.
#[verifier::external_body]
pub(crate) fn its_high_frequency(
    heading: Heading,
    speed: Speed,
    drive_direction: DriveDirection,
    vehicle_length: VehicleLength,
    vehicle_width: u8,
    acceleration: LongitudinalAcceleration,
    curvature: Curvature,
    mode: CurvatureCalculationMode,
    yaw_rate: YawRate,
) -> (hf: BasicVehicleContainerHighFrequency) {
    BasicVehicleContainerHighFrequency::new(
        heading, speed, drive_direction, vehicle_length, VehicleWidth(vehicle_width),
        acceleration, curvature, mode, yaw_rate, None, None, None, None, None, None, None,
    )
}

/// `CAM::new(header, CoopAwareness::new(GenerationDeltaTime(gdt), CamParameters::new(basic,
/// basicVehicleContainerHighFrequency(hf), None, None)))`. The result is opaque.
#[verifier::external_body]
pub(crate) fn its_cam(
    header: ItsPduHeader,
    generation_delta_time: u16,
    basic: BasicContainer,
    high_frequency: BasicVehicleContainerHighFrequency,
) -> (cam: CAM) {
    let hf = HighFrequencyContainer::basicVehicleContainerHighFrequency(high_frequency);
    let parameters = CamParameters::new(basic, hf, None, None);
    CAM::new(header, CoopAwareness::new(GenerationDeltaTime(generation_delta_time), parameters))
}

/// `ItsMessage::encode` of `cam` without GeoNetworking or transport header, with the
/// encoding rules UPER, XER or JER of `encoding`: the encoded bytes, or the encoder's
/// description of why it failed. Not stated: which bytes come out, and when the encoder
/// refuses. The CAM is an opaque outside value, which no name over plain values can take;
/// what the bytes hold is established by reading them back (`decoded_cam_stamp` and the
/// names after it).
#[verifier::external_body]
pub(crate) fn encode_its_cam(cam: CAM, encoding: V2xEncoding) -> (r: Result<Vec<u8>, String>) {
    let rules = match encoding {
        V2xEncoding::Uper => EncodingRules::UPER,
        V2xEncoding::Xer => EncodingRules::XER,
        V2xEncoding::Jer => EncodingRules::JER,
    };
    ItsMessage::Cam { geonetworking: None, transport: None, etsi: Box::new(cam) }.encode(rules)
}

/// What rasn's `Codec::decode_from_binary::<CAM>` gives for `bytes` with the codec of
/// `encoding` (UPER, XER or JER), reduced to the header and the generation delta time;
/// `None` when the bytes are no CAM in that encoding.
pub uninterp spec fn decoded_cam_stamp(bytes: Seq<u8>, encoding: V2xEncoding) -> Option<CamStamp>;

/// rasn's `Codec::decode_from_binary::<CAM>` with the codec of `encoding`, reduced to what
/// `decoded_cam_stamp` names.
#[verifier::external_body]
pub(crate) fn decode_cam_stamp(bytes: &[u8], encoding: V2xEncoding) -> (r: Option<CamStamp>)
    ensures
        r == decoded_cam_stamp(bytes@, encoding),
{
    let codec = match encoding { V2xEncoding::Uper => rasn::Codec::Uper, V2xEncoding::Xer => rasn::Codec::Xer, V2xEncoding::Jer => rasn::Codec::Jer };
    match codec.decode_from_binary::<CAM>(bytes) {
        Ok(cam) => Some(CamStamp {
            protocol_version: cam.header.protocol_version,
            message_id: cam.header.message_id,
            station_id: cam.header.station_id.0,
            generation_delta_time: cam.cam.generation_delta_time.0,
        }),
        Err(_) => None,
    }
}

/// What rasn's `Codec::decode_from_binary::<CAM>` gives for `bytes` with the codec of
/// `encoding`, reduced to the basic container with the ASN.1 number of its altitude
/// confidence; `None` when the bytes are no CAM in that encoding.
pub uninterp spec fn decoded_cam_position(bytes: Seq<u8>, encoding: V2xEncoding) -> Option<CamBasicContainer>;

/// rasn's `Codec::decode_from_binary::<CAM>` with the codec of `encoding`, reduced to what
/// `decoded_cam_position` names.
#[verifier::external_body]
pub(crate) fn decode_cam_position(bytes: &[u8], encoding: V2xEncoding) -> (r: Option<CamBasicContainer>)
    ensures
        r == decoded_cam_position(bytes@, encoding),
{
    let codec = match encoding { V2xEncoding::Uper => rasn::Codec::Uper, V2xEncoding::Xer => rasn::Codec::Xer, V2xEncoding::Jer => rasn::Codec::Jer };
    match codec.decode_from_binary::<CAM>(bytes) {
        Ok(cam) => {
            let b = cam.cam.cam_parameters.basic_container;
            let p = b.reference_position;
            let e = p.position_confidence_ellipse;
            Some(CamBasicContainer {
                station_type: b.station_type.0, latitude: p.latitude.0, longitude: p.longitude.0,
                semi_major_confidence: e.semi_major_confidence.0, semi_minor_confidence: e.semi_minor_confidence.0,
                semi_major_orientation: e.semi_major_orientation.0, altitude_value: p.altitude.altitude_value.0,
                altitude_confidence: p.altitude.altitude_confidence.discriminant() as u8,
            })
        },
        Err(_) => None,
    }
}

/// What rasn's `Codec::decode_from_binary::<CAM>` gives for `bytes` with the codec of
/// `encoding`, reduced to the heading, speed, drive direction (its ASN.1 number) and
/// acceleration of a basic vehicle high-frequency container; `None` when the bytes are no CAM in that encoding or its high-frequency container is
/// another kind.
pub uninterp spec fn decoded_cam_motion(bytes: Seq<u8>, encoding: V2xEncoding) -> Option<CamMotion>;

/// rasn's `Codec::decode_from_binary::<CAM>` with the codec of `encoding`, reduced to what
/// `decoded_cam_motion` names.
#[verifier::external_body]
pub(crate) fn decode_cam_motion(bytes: &[u8], encoding: V2xEncoding) -> (r: Option<CamMotion>)
    ensures
        r == decoded_cam_motion(bytes@, encoding),
{
    let codec = match encoding { V2xEncoding::Uper => rasn::Codec::Uper, V2xEncoding::Xer => rasn::Codec::Xer, V2xEncoding::Jer => rasn::Codec::Jer };
    match codec.decode_from_binary::<CAM>(bytes).map(|c| c.cam.cam_parameters.high_frequency_container) {
        Ok(HighFrequencyContainer::basicVehicleContainerHighFrequency(f)) => Some(CamMotion {
            heading_value: f.heading.heading_value.0,
            heading_confidence: f.heading.heading_confidence.0,
            speed_value: f.speed.speed_value.0,
            speed_confidence: f.speed.speed_confidence.0,
            drive_direction: f.drive_direction.discriminant() as u8,
            acceleration_value: f.longitudinal_acceleration.longitudinal_acceleration_value.0,
            acceleration_confidence: f.longitudinal_acceleration.longitudinal_acceleration_confidence.0,
        }),
        _ => None,
    }
}

/// What rasn's `Codec::decode_from_binary::<CAM>` gives for `bytes` with the codec of
/// `encoding`, reduced to the vehicle length and width, curvature, curvature calculation
/// mode and yaw rate of a basic vehicle high-frequency container, enumerated values by
/// their ASN.1 numbers; `None` when the bytes are no CAM in that encoding or its
/// high-frequency container is another kind.
pub uninterp spec fn decoded_cam_shape(bytes: Seq<u8>, encoding: V2xEncoding) -> Option<CamShape>;

/// rasn's `Codec::decode_from_binary::<CAM>` with the codec of `encoding`, reduced to what
/// `decoded_cam_shape` names.
#[verifier::external_body]
pub(crate) fn decode_cam_shape(bytes: &[u8], encoding: V2xEncoding) -> (r: Option<CamShape>)
    ensures
        r == decoded_cam_shape(bytes@, encoding),
{
    let codec = match encoding { V2xEncoding::Uper => rasn::Codec::Uper, V2xEncoding::Xer => rasn::Codec::Xer, V2xEncoding::Jer => rasn::Codec::Jer };
    match codec.decode_from_binary::<CAM>(bytes).map(|c| c.cam.cam_parameters.high_frequency_container) {
        Ok(HighFrequencyContainer::basicVehicleContainerHighFrequency(f)) => Some(CamShape {
            vehicle_length_value: f.vehicle_length.vehicle_length_value.0,
            vehicle_length_confidence: f.vehicle_length.vehicle_length_confidence_indication.discriminant() as u8,
            vehicle_width: f.vehicle_width.0,
            curvature_value: f.curvature.curvature_value.0,
            curvature_confidence: f.curvature.curvature_confidence.discriminant() as u8,
            curvature_calculation_mode: f.curvature_calculation_mode.discriminant() as u8,
            yaw_rate_value: f.yaw_rate.yaw_rate_value.0,
            yaw_rate_confidence: f.yaw_rate.yaw_rate_confidence.discriminant() as u8,
        }),
        _ => None,
    }
}

/// What rasn's `Codec::decode_from_binary::<CAM>` gives for `bytes` with the codec of
/// `encoding`, reduced to which of the CAM's optional parts are absent; `None` when the
/// bytes are no CAM in that encoding.
pub uninterp spec fn decoded_cam_extras(bytes: Seq<u8>, encoding: V2xEncoding) -> Option<CamExtras>;

/// rasn's `Codec::decode_from_binary::<CAM>` with the codec of `encoding`, reduced to what
/// `decoded_cam_extras` names.
#[verifier::external_body]
pub(crate) fn decode_cam_extras(bytes: &[u8], encoding: V2xEncoding) -> (r: Option<CamExtras>)
    ensures
        r == decoded_cam_extras(bytes@, encoding),
{
    let codec = match encoding { V2xEncoding::Uper => rasn::Codec::Uper, V2xEncoding::Xer => rasn::Codec::Xer, V2xEncoding::Jer => rasn::Codec::Jer };
    match codec.decode_from_binary::<CAM>(bytes) {
        Ok(cam) => Some(CamExtras {
            low_frequency_absent: cam.cam.cam_parameters.low_frequency_container.is_none(),
            special_vehicle_absent: cam.cam.cam_parameters.special_vehicle_container.is_none(),
            vehicle_options_absent: match cam.cam.cam_parameters.high_frequency_container {
                HighFrequencyContainer::basicVehicleContainerHighFrequency(f) => f.acceleration_control.is_none()
                    && f.lane_position.is_none() && f.steering_wheel_angle.is_none() && f.lateral_acceleration.is_none()
                    && f.vertical_acceleration.is_none() && f.performance_class.is_none() && f.cen_dsrc_tolling_zone.is_none(),
                _ => false,
            },
        }),
        Err(_) => None,
    }
}

/// What `c_its_parser::de::decode(bytes, Headers::None)` gives as the header and basic
/// container of a CAM: the decoder's error text, `None` for an ITS message other than a
/// CAM, or the fields as raw ETSI integers.
pub uninterp spec fn decoded_cam_basic(bytes: Seq<u8>) -> Result<Option<CamBasicRecord>, Seq<char>>;

/// What `c_its_parser::de::decode(bytes, Headers::None)` gives as the basic vehicle
/// high-frequency container of a CAM: `None` when the bytes hold no CAM or a CAM whose
/// high-frequency container is another kind.
pub uninterp spec fn decoded_cam_vehicle(bytes: Seq<u8>) -> Option<CamVehicleRecord>;

/// `Result<T, String>` with the error taken as its text.
pub open spec fn with_error_text<T>(r: Result<T, String>) -> Result<T, Seq<char>> {
    match r {
        Ok(v) => Ok(v),
        Err(e) => Err(e@),
    }
}

/// An encoder's result taken by its views: the bytes, or the error's text.
pub open spec fn encoding_view(r: Result<Vec<u8>, String>) -> Result<Seq<u8>, Seq<char>> {
    match r {
        Ok(v) => Ok(v@),
        Err(e) => Err(e@),
    }
}

/// `c_its_parser::de::decode` without headers, reduced to the CAM's header and basic
/// container (see `decoded_cam_basic`). Bytes on which the decoder reads past the end are
/// left out (see `decoder_may_overrun`).
#[verifier::external_body]
pub(crate) fn decode_cam_basic(bytes: &[u8]) -> (r: Result<Option<CamBasicRecord>, String>)
    requires
        !decoder_may_overrun(bytes@),
    ensures
        with_error_text(r) == decoded_cam_basic(bytes@),
{
    #[allow(unreachable_patterns)]
    match c_its_parser::de::decode(bytes, Headers::None) {
        Ok(ItsMessage::Cam { etsi, .. }) => Ok(Some(CamBasicRecord {
            station_id: etsi.header.station_id.0,
            station_type: etsi.cam.cam_parameters.basic_container.station_type.0,
            latitude: etsi.cam.cam_parameters.basic_container.reference_position.latitude.0,
            longitude: etsi.cam.cam_parameters.basic_container.reference_position.longitude.0,
            altitude: etsi.cam.cam_parameters.basic_container.reference_position.altitude.altitude_value.0,
        })),
        Ok(_) => Ok(None),
        Err(e) => Err(e),
    }
}

/// `c_its_parser::de::decode` without headers, reduced to the CAM's basic vehicle
/// high-frequency container (see `decoded_cam_vehicle`). Its drive direction is the ASN.1
/// number of the `DriveDirection` variant, which is 0, 1 or 2. Bytes on which the decoder
/// reads past the end are left out (see `decoder_may_overrun`).
#[verifier::external_body]
pub(crate) fn decode_cam_vehicle(bytes: &[u8]) -> (r: Option<CamVehicleRecord>)
    requires
        !decoder_may_overrun(bytes@),
    ensures
        r == decoded_cam_vehicle(bytes@),
        r matches Some(v) ==> v.drive_direction <= 2,
{
    match c_its_parser::de::decode(bytes, Headers::None) {
        Ok(ItsMessage::Cam { etsi, .. }) => match etsi.cam.cam_parameters.high_frequency_container {
            HighFrequencyContainer::basicVehicleContainerHighFrequency(hf) => Some(CamVehicleRecord {
                heading: hf.heading.heading_value.0,
                speed: hf.speed.speed_value.0,
                accel: hf.longitudinal_acceleration.longitudinal_acceleration_value.0,
                yaw_rate: hf.yaw_rate.yaw_rate_value.0,
                vehicle_length: hf.vehicle_length.vehicle_length_value.0,
                vehicle_width: hf.vehicle_width.0,
                drive_direction: hf.drive_direction as u8,
            }),
            _ => None,
        },
        _ => None,
    }
}

/// `AltitudeValue::is_unavailable`: whether `raw` is ETSI's "unavailable" altitude, 800001.
#[verifier::external_body]
pub(crate) fn altitude_unavailable(raw: i32) -> (r: bool)
    ensures
        r == (raw == 800001),
{
    AltitudeValue(raw).is_unavailable()
}

/// `SpeedValue::is_unavailable`: whether `raw` is ETSI's "unavailable" speed, 16383.
#[verifier::external_body]
pub(crate) fn speed_unavailable(raw: u16) -> (r: bool)
    ensures
        r == (raw == 16383),
{
    SpeedValue(raw).is_unavailable()
}

/// `HeadingValue::is_unavailable`: whether `raw` is ETSI's "unavailable" heading, 3601.
#[verifier::external_body]
pub(crate) fn heading_unavailable(raw: u16) -> (r: bool)
    ensures
        r == (raw == 3601),
{
    HeadingValue(raw).is_unavailable()
}

/// `LongitudinalAccelerationValue::is_unavailable`: whether `raw` is ETSI's "unavailable"
/// longitudinal acceleration, 161.
#[verifier::external_body]
pub(crate) fn acceleration_unavailable(raw: i16) -> (r: bool)
    ensures
        r == (raw == 161),
{
    LongitudinalAccelerationValue(raw).is_unavailable()
}

/// `YawRateValue::is_unavailable`: whether `raw` is ETSI's "unavailable" yaw rate, 32767.
#[verifier::external_body]
pub(crate) fn yaw_rate_unavailable(raw: i16) -> (r: bool)
    ensures
        r == (raw == 32767),
{
    YawRateValue(raw).is_unavailable()
}

/// `VehicleLengthValue::is_unavailable`: whether `raw` is ETSI's "unavailable" vehicle
/// length, 1023.
#[verifier::external_body]
pub(crate) fn vehicle_length_unavailable(raw: u16) -> (r: bool)
    ensures
        r == (raw == 1023),
{
    VehicleLengthValue(raw).is_unavailable()
}

/// `VehicleWidth::is_unavailable`: whether `raw` is ETSI's "unavailable" vehicle width, 62.
#[verifier::external_body]
pub(crate) fn vehicle_width_unavailable(raw: u8) -> (r: bool)
    ensures
        r == (raw == 62),
{
    VehicleWidth(raw).is_unavailable()
}

} // verus!
