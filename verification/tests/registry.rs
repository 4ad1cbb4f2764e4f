use v2x::registry::StationRegistry;

#[test]
fn vehicles_get_ids_in_order_of_appearance() {
    let mut registry = StationRegistry::new();
    assert_eq!(registry.station_id_for("veh0"), 1);
    assert_eq!(registry.station_id_for("veh1"), 2);
    assert_eq!(registry.station_id_for("veh0"), 1);
    assert_eq!(registry.station_id_for("bus.3"), 3);
    assert_eq!(registry.station_id_for("veh1"), 2);
    assert_eq!(registry.station_id_for("Veh0"), 4);
}

#[test]
fn a_known_vehicle_keeps_its_id() {
    let mut registry = StationRegistry::new();
    let first = registry.station_id_for("flow_7.12");
    for _ in 0..5 {
        assert_eq!(registry.station_id_for("flow_7.12"), first);
    }
    assert_eq!(registry.station_id_for("other"), first + 1);
}
