use c_its_parser::standards::cdd_1_3_1_1::its_container::{
    HeadingValue, Latitude, LongitudinalAccelerationValue, Longitude, SpeedValue,
};
use v2x::cam::{build_and_encode_cam, CamTelemetry, ITS_EPOCH_UNIX_MS};
use v2x::decoded::V2xMessage;
use v2x::encoding::V2xEncoding;
use v2x::error::V2xError;
use v2x::station::ItsStationType;
use v2x::tracked_objects::TrackedObjects;
use v2x::tracking::ingest_packet;

fn cam_bytes(station_id: u32) -> Vec<u8> {
    let telemetry = CamTelemetry {
        station_id,
        station_type: ItsStationType::PassengerCar,
        timestamp_ms: ITS_EPOCH_UNIX_MS + 42,
        latitude: Latitude::from_deg(43.65734).0,
        longitude: Longitude::from_deg(-79.38433).0,
        speed: SpeedValue::from_mps(10.0).unwrap().0,
        heading: HeadingValue::from_deg(45.0).unwrap().0,
        accel: LongitudinalAccelerationValue::from_mpss(0.0).unwrap().0,
    };
    build_and_encode_cam(telemetry, V2xEncoding::Uper).unwrap()
}

#[test]
fn packets_are_tracked_by_station() {
    let mut objects = TrackedObjects::new();
    assert_eq!(ingest_packet(&mut objects, &cam_bytes(5)).ok(), Some(5));
    assert_eq!(ingest_packet(&mut objects, &cam_bytes(6)).ok(), Some(6));
    assert_eq!(ingest_packet(&mut objects, &cam_bytes(5)).ok(), Some(5));
    let mut ids: Vec<u32> = objects
        .values()
        .into_iter()
        .map(|m| match m {
            V2xMessage::Car(car) => car.station_id,
            _ => unreachable!(),
        })
        .collect();
    ids.sort();
    assert_eq!(ids, vec![5, 6]);
}

#[test]
fn bad_packets_change_nothing() {
    let mut objects = TrackedObjects::new();
    assert!(matches!(ingest_packet(&mut objects, b"not a cam"), Err(V2xError::Decode(_))));
    assert!(objects.values().is_empty());
}

#[test]
fn ingest_reports_what_decoding_reports() {
    let mut objects = TrackedObjects::new();
    let data = [0x01u8, 0x02, 0x03];
    let expected = v2x::decoding::decode_v2x(&data).err().unwrap();
    assert_eq!(ingest_packet(&mut objects, &data).err(), Some(expected));
    assert!(objects.values().is_empty());
}
