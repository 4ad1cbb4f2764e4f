use c_its_parser::standards::cdd_1_3_1_1::its_container::{
    HeadingValue, Latitude, LongitudinalAccelerationValue, Longitude, SpeedValue,
};
use c_its_parser::standards::cam_1_4_1::cam_pdu_descriptions::CAM;
use v2x::cam::{
    accept_encoded_cam, build_and_encode_cam, build_cam, cam_fields, encode_cam_pdu,
    generation_delta_time, CamTelemetry, ALTITUDE_CONFIDENCE_UNAVAILABLE, CAM_MESSAGE_ID,
    CAM_PROTOCOL_VERSION, ENCODED_CAM_MISMATCH, ITS_EPOCH_UNIX_MS,
};
use v2x::decoded::{V2xMessage, VehicleDriveDirection};
use v2x::decoding::{decode_v2x, extract_from_cam, CamBasicRecord, CamVariant, CamVehicleRecord};
use v2x::encoding::V2xEncoding;
use v2x::error::V2xError;
use v2x::station::ItsStationType;

/// Telemetry in SI units turned into the ETSI units of a CAM, the way the simulation does.
fn telemetry(
    station_id: u32,
    timestamp_ms: u64,
    latitude_deg: f64,
    longitude_deg: f64,
    speed_mps: f64,
    heading_deg: f64,
    accel_mpss: f64,
) -> CamTelemetry {
    CamTelemetry {
        station_id,
        station_type: ItsStationType::PassengerCar,
        timestamp_ms,
        latitude: Latitude::from_deg(latitude_deg).0,
        longitude: Longitude::from_deg(longitude_deg).0,
        speed: SpeedValue::from_mps((speed_mps as f32).clamp(0.0, 163.82)).unwrap().0,
        heading: HeadingValue::from_deg((heading_deg as f32).rem_euclid(360.0)).unwrap().0,
        accel: LongitudinalAccelerationValue::from_mpss((accel_mpss as f32).clamp(-16.0, 16.0))
            .unwrap()
            .0,
    }
}

#[test]
fn test_build_and_encode_cam_with_unix_timestamp() {
    let t = telemetry(42, 1_783_864_800_000, 48.137154, 11.576124, 13.8, 180.0, 0.5);
    let result = build_and_encode_cam(t, V2xEncoding::Uper);
    assert!(result.is_ok());

    let t_epoch = telemetry(42, ITS_EPOCH_UNIX_MS + 5000, 48.137154, 11.576124, 13.8, 180.0, 0.5);
    let result_epoch = build_and_encode_cam(t_epoch, V2xEncoding::Uper);
    assert!(result_epoch.is_ok());
}

#[test]
fn round_trip_uper() {
    let latitude_deg = 48.137_154;
    let longitude_deg = 11.576_124;
    let speed_mps = 13.8;
    let heading_deg = 270.0;
    let accel_mpss = -1.5;
    let t = telemetry(
        7,
        ITS_EPOCH_UNIX_MS + 10_000,
        latitude_deg,
        longitude_deg,
        speed_mps,
        heading_deg,
        accel_mpss,
    );

    let bytes = build_and_encode_cam(t, V2xEncoding::Uper).expect("encoding should succeed");
    let decoded = decode_v2x(&bytes).expect("decoding should succeed");
    let car = match decoded {
        V2xMessage::Car(car) => car,
        _ => unreachable!(),
    };

    assert_eq!(car.station_id, 7);
    assert_eq!(car.station_type, ItsStationType::PassengerCar.code());

    assert_eq!(Latitude(car.latitude).as_deg(), latitude_deg);
    assert_eq!(Longitude(car.longitude).as_deg(), longitude_deg);

    assert_eq!(car.speed.map(|v| SpeedValue(v).as_mps()), Some(speed_mps as f32));
    assert_eq!(car.heading.map(|v| HeadingValue(v).as_deg()), Some(heading_deg as f32));
    assert_eq!(
        car.accel.map(|v| LongitudinalAccelerationValue(v).as_mpss()),
        Some(accel_mpss as f32)
    );

    assert_eq!(car.drive_direction, VehicleDriveDirection::Forward);
}

#[test]
fn generation_delta_time_counts_from_the_its_epoch() {
    assert_eq!(generation_delta_time(ITS_EPOCH_UNIX_MS), 0);
    assert_eq!(generation_delta_time(ITS_EPOCH_UNIX_MS + 5000), 5000);
    assert_eq!(generation_delta_time(ITS_EPOCH_UNIX_MS + 65_536), 0);
    assert_eq!(generation_delta_time(ITS_EPOCH_UNIX_MS + 65_536 + 17), 17);
    assert_eq!(generation_delta_time(ITS_EPOCH_UNIX_MS - 1), 0);
    assert_eq!(generation_delta_time(0), 0);
    // 1_783_864_800_000 - 1_072_915_200_000 = 710_949_600_000; modulo 65536 that is 64256.
    assert_eq!(generation_delta_time(1_783_864_800_000), 64256);
}

#[test]
fn build_cam_fills_in_the_defaults() {
    let t = CamTelemetry {
        station_id: 9,
        station_type: ItsStationType::PassengerCar,
        timestamp_ms: ITS_EPOCH_UNIX_MS + 300,
        latitude: 481_371_540,
        longitude: 115_761_240,
        speed: 1380,
        heading: 2700,
        accel: -15,
    };
    let pdu = build_cam(cam_fields(t));
    assert_eq!(pdu.header.protocol_version, CAM_PROTOCOL_VERSION);
    assert_eq!(pdu.header.message_id, CAM_MESSAGE_ID);
    assert_eq!(pdu.header.station_id, 9);
    assert_eq!(pdu.generation_delta_time, 300);
    assert_eq!(pdu.basic.station_type, 5);
    assert_eq!(pdu.basic.latitude, 481_371_540);
    assert_eq!(pdu.basic.longitude, 115_761_240);
    assert_eq!(pdu.basic.semi_major_confidence, 100);
    assert_eq!(pdu.basic.semi_minor_confidence, 100);
    assert_eq!(pdu.basic.semi_major_orientation, 0);
    assert_eq!(pdu.basic.altitude_value, 0);
    assert_eq!(pdu.basic.altitude_confidence, ALTITUDE_CONFIDENCE_UNAVAILABLE);
    assert_eq!(pdu.high_frequency.heading_value, 2700);
    assert_eq!(pdu.high_frequency.speed_value, 1380);
    assert_eq!(pdu.high_frequency.acceleration_value, -15);
    assert_eq!(pdu.high_frequency.vehicle_length_value, 40);
    assert_eq!(pdu.high_frequency.vehicle_width, 18);
    assert_eq!(pdu.high_frequency.drive_direction, VehicleDriveDirection::Forward);
    assert_eq!(pdu.high_frequency.curvature_confidence, 7);
    assert_eq!(pdu.high_frequency.curvature_calculation_mode, 1);
    assert_eq!(pdu.high_frequency.yaw_rate_confidence, 8);
}

#[test]
fn cams_encode_with_every_rule_and_decode_back() {
    let t = telemetry(11, ITS_EPOCH_UNIX_MS + 1, 43.65734, -79.38433, 3.0, 90.0, 0.0);
    for encoding in [V2xEncoding::Uper, V2xEncoding::Xer, V2xEncoding::Jer] {
        let bytes = build_and_encode_cam(t, encoding).expect("encoding should succeed");
        let message = decode_v2x(&bytes).expect("decoding should succeed");
        let car = match message {
            V2xMessage::Car(car) => car,
            _ => unreachable!(),
        };
        assert_eq!(car.station_id, 11);
        assert_eq!(car.latitude, t.latitude);
        assert_eq!(car.longitude, t.longitude);
        assert_eq!(car.speed, Some(t.speed));
        assert_eq!(car.heading, Some(t.heading));
        assert_eq!(car.accel, Some(t.accel));
        assert_eq!(car.vehicle_length, Some(40));
        assert_eq!(car.vehicle_width, Some(18));
        assert_eq!(car.yaw_rate, Some(0));
        assert_eq!(car.altitude, Some(0));
    }
}

#[test]
fn the_encodings_differ() {
    let t = telemetry(11, ITS_EPOCH_UNIX_MS + 1, 43.65734, -79.38433, 3.0, 90.0, 0.0);
    let uper = build_and_encode_cam(t, V2xEncoding::Uper).unwrap();
    let xer = build_and_encode_cam(t, V2xEncoding::Xer).unwrap();
    let jer = build_and_encode_cam(t, V2xEncoding::Jer).unwrap();
    assert_ne!(uper, xer);
    assert_ne!(uper, jer);
    assert_ne!(xer, jer);
    assert_eq!(jer.first(), Some(&b'{'));
}

#[test]
fn an_out_of_range_value_is_refused_by_the_encoder() {
    let mut t = telemetry(1, ITS_EPOCH_UNIX_MS, 0.0, 0.0, 0.0, 0.0, 0.0);
    t.speed = 20_000;
    match build_and_encode_cam(t, V2xEncoding::Uper) {
        Err(V2xError::Encode(_)) => {}
        _ => panic!("expected an encoding error"),
    }
    let pdu = build_cam(cam_fields(t));
    assert!(matches!(encode_cam_pdu(&pdu, V2xEncoding::Uper), Err(V2xError::Encode(_))));
}

#[test]
fn garbage_does_not_decode() {
    match decode_v2x(&[0xff, 0x00, 0x13]) {
        Err(V2xError::Decode(detail)) => {
            let message = V2xError::Decode(detail.clone()).message();
            assert_eq!(message, format!("decode error: {detail}"));
        }
        _ => panic!("expected a decoding error"),
    }
}

#[test]
fn unavailable_values_become_none() {
    let basic = CamBasicRecord {
        station_id: 3,
        station_type: 5,
        latitude: 900_000_001,
        longitude: 1_800_000_001,
        altitude: 800_001,
    };
    let vehicle = CamVehicleRecord {
        heading: 3601,
        speed: 16_383,
        accel: 161,
        yaw_rate: 32_767,
        vehicle_length: 1023,
        vehicle_width: 62,
        drive_direction: 2,
    };
    let car = match extract_from_cam(basic, Some(vehicle)) {
        CamVariant::Car(car) => car,
        CamVariant::Unsupported => unreachable!(),
    };
    assert_eq!(car.station_id, 3);
    assert_eq!(car.latitude, 900_000_001);
    assert_eq!(car.altitude, None);
    assert_eq!(car.speed, None);
    assert_eq!(car.heading, None);
    assert_eq!(car.accel, None);
    assert_eq!(car.yaw_rate, None);
    assert_eq!(car.vehicle_length, None);
    assert_eq!(car.vehicle_width, None);
    assert_eq!(car.drive_direction, VehicleDriveDirection::Unavailable);
}

#[test]
fn available_values_are_kept() {
    let basic = CamBasicRecord { station_id: 4, station_type: 5, latitude: 1, longitude: 2, altitude: 800_000 };
    let vehicle = CamVehicleRecord {
        heading: 3600,
        speed: 16_382,
        accel: 160,
        yaw_rate: -32_766,
        vehicle_length: 1,
        vehicle_width: 61,
        drive_direction: 1,
    };
    let car = match extract_from_cam(basic, Some(vehicle)) {
        CamVariant::Car(car) => car,
        CamVariant::Unsupported => unreachable!(),
    };
    assert_eq!(car.altitude, Some(800_000));
    assert_eq!(car.speed, Some(16_382));
    assert_eq!(car.heading, Some(3600));
    assert_eq!(car.accel, Some(160));
    assert_eq!(car.yaw_rate, Some(-32_766));
    assert_eq!(car.vehicle_length, Some(1));
    assert_eq!(car.vehicle_width, Some(61));
    assert_eq!(car.drive_direction, VehicleDriveDirection::Backward);
}

#[test]
fn a_cam_without_vehicle_container_is_unsupported() {
    let basic = CamBasicRecord { station_id: 4, station_type: 15, latitude: 1, longitude: 2, altitude: 0 };
    assert_eq!(extract_from_cam(basic, None), CamVariant::Unsupported);
    let err = V2xError::UnsupportedHighFrequencyContainer;
    assert_eq!(err.message(), "received CAM with unsupported high-frequency container");
}

#[test]
fn error_messages() {
    assert_eq!(V2xError::Encode("boom".to_string()).message(), "failed to encode CAM: boom");
    assert_eq!(
        V2xError::UnsupportedMessageType.message(),
        "unsupported V2X message type; only CAM is currently decoded"
    );
}

#[test]
fn station_id_of_a_message() {
    let basic = CamBasicRecord { station_id: 77, station_type: 5, latitude: 1, longitude: 2, altitude: 0 };
    let vehicle = CamVehicleRecord {
        heading: 0,
        speed: 0,
        accel: 0,
        yaw_rate: 0,
        vehicle_length: 40,
        vehicle_width: 18,
        drive_direction: 0,
    };
    let message = match extract_from_cam(basic, Some(vehicle)) {
        CamVariant::Car(car) => V2xMessage::Car(car),
        CamVariant::Unsupported => unreachable!(),
    };
    assert_eq!(message.station_id(), 77);
}

#[test]
fn an_unknown_enumerated_value_is_refused() {
    let t = telemetry(1, ITS_EPOCH_UNIX_MS, 0.0, 0.0, 0.0, 0.0, 0.0);
    let mut pdu = build_cam(cam_fields(t));
    pdu.high_frequency.yaw_rate_confidence = 9;
    assert_eq!(
        encode_cam_pdu(&pdu, V2xEncoding::Jer),
        Err(V2xError::Encode(v2x::cam::UNKNOWN_ENUMERATED_VALUE.to_string()))
    );
    let mut pdu = build_cam(cam_fields(t));
    pdu.basic.altitude_confidence = 16;
    assert!(matches!(encode_cam_pdu(&pdu, V2xEncoding::Uper), Err(V2xError::Encode(_))));
    let mut pdu = build_cam(cam_fields(t));
    pdu.high_frequency.curvature_calculation_mode = 2;
    assert!(encode_cam_pdu(&pdu, V2xEncoding::Uper).is_ok());
    pdu.high_frequency.curvature_calculation_mode = 3;
    assert!(encode_cam_pdu(&pdu, V2xEncoding::Uper).is_err());
}

#[test]
fn encoded_cams_carry_the_generation_delta_time() {
    let t = telemetry(42, 1_783_864_800_000, 48.137154, 11.576124, 13.8, 180.0, 0.5);
    let bytes = build_and_encode_cam(t, V2xEncoding::Uper).unwrap();
    let cam: CAM = c_its_parser::de::decode_from_uper(&bytes).unwrap();
    assert_eq!(cam.header.station_id.0, 42);
    assert_eq!(cam.cam.generation_delta_time.0, 64256);

    let t = telemetry(42, ITS_EPOCH_UNIX_MS + 5000, 48.137154, 11.576124, 13.8, 180.0, 0.5);
    let bytes = build_and_encode_cam(t, V2xEncoding::Xer).unwrap();
    let cam: CAM = c_its_parser::de::decode_from_xer_buf(&bytes).unwrap();
    assert_eq!(cam.cam.generation_delta_time.0, 5000);
    let bytes = build_and_encode_cam(t, V2xEncoding::Jer).unwrap();
    let cam: CAM = c_its_parser::de::decode_from_jer_buf(&bytes).unwrap();
    assert_eq!(cam.cam.generation_delta_time.0, 5000);
    assert_eq!(cam.header.protocol_version, CAM_PROTOCOL_VERSION);
    assert_eq!(cam.header.message_id, CAM_MESSAGE_ID);
}

#[test]
fn the_encoders_error_is_passed_on() {
    let t = telemetry(5, ITS_EPOCH_UNIX_MS + 1, 0.0, 0.0, 1.0, 10.0, 0.0);
    let pdu = build_cam(cam_fields(t));
    assert_eq!(
        accept_encoded_cam(Err("refused".to_string()), &pdu, V2xEncoding::Uper),
        Err(V2xError::Encode("refused".to_string()))
    );
}

#[test]
fn encoded_bytes_are_read_back_before_they_are_accepted() {
    let t = telemetry(5, ITS_EPOCH_UNIX_MS + 1, 0.0, 0.0, 1.0, 10.0, 0.0);
    let pdu = build_cam(cam_fields(t));
    let mismatch = Err(V2xError::Encode(ENCODED_CAM_MISMATCH.to_string()));

    let uper = encode_cam_pdu(&pdu, V2xEncoding::Uper).unwrap();
    assert_eq!(accept_encoded_cam(Ok(uper.clone()), &pdu, V2xEncoding::Uper), Ok(uper.clone()));
    // The bytes must be in the encoding that was asked for.
    assert_eq!(accept_encoded_cam(Ok(uper.clone()), &pdu, V2xEncoding::Xer), mismatch);
    assert_eq!(accept_encoded_cam(Ok(vec![1, 2, 3]), &pdu, V2xEncoding::Uper), mismatch);

    // Bytes of another generation delta time, or of another station, do not carry `pdu`.
    let mut later = pdu;
    later.generation_delta_time = 6;
    let jer_later = encode_cam_pdu(&later, V2xEncoding::Jer).unwrap();
    assert_eq!(accept_encoded_cam(Ok(jer_later.clone()), &later, V2xEncoding::Jer), Ok(jer_later.clone()));
    assert_eq!(accept_encoded_cam(Ok(jer_later), &pdu, V2xEncoding::Jer), mismatch);
    let mut other = pdu;
    other.header.station_id = 6;
    assert_eq!(accept_encoded_cam(Ok(uper.clone()), &other, V2xEncoding::Uper), mismatch);
    // Nor do bytes whose confidences or defaults differ from those of `pdu`.
    let mut unsure = pdu;
    unsure.high_frequency.acceleration_confidence = pdu.high_frequency.heading_confidence + 1;
    assert_eq!(accept_encoded_cam(Ok(uper.clone()), &unsure, V2xEncoding::Uper), mismatch);
    let mut wide = pdu;
    wide.basic.semi_major_confidence = 101;
    assert_eq!(accept_encoded_cam(Ok(uper.clone()), &wide, V2xEncoding::Uper), mismatch);
    let mut curving = pdu;
    curving.high_frequency.curvature_calculation_mode = 0;
    assert_eq!(accept_encoded_cam(Ok(uper), &curving, V2xEncoding::Uper), mismatch);
}
