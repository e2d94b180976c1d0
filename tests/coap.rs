use vent_controller::coap::{
    handle_get_config, handle_get_health, handle_get_identity, handle_get_position,
    handle_put_config, handle_put_target, join_uri_path, put_config_writes, put_target_writes,
    route_request, Body, CoapMethod, CoapResponse, Route, NOMINAL_BATTERY_MV,
};
use vent_controller::identity::{DeviceIdentity, StoreWrite, StoredRecord};
use vent_controller::protocol::{DeviceConfig, PowerSource, TargetRequest, VentState};
use vent_controller::state::AppState;

fn empty_record() -> StoredRecord {
    StoredRecord {
        angle: None,
        target: None,
        wal: None,
        init: None,
        room: None,
        floor: None,
        name: None,
    }
}

fn app(angle: u8) -> AppState {
    let mut record = empty_record();
    record.angle = Some(angle);
    record.wal = Some(1);
    AppState::boot(
        DeviceIdentity::new("aa:bb".to_string(), record),
        PowerSource::Usb,
        0,
    )
}

/// Carries out writes on a store that accepts the first `budget` of them.
fn persist(state: &mut AppState, writes: Vec<StoreWrite>, budget: usize) -> bool {
    for (i, w) in writes.into_iter().enumerate() {
        if i >= budget {
            return false;
        }
        state.identity.apply(w);
    }
    true
}

#[test]
fn routes_cover_the_table() {
    assert_eq!(route_request("vent/position", CoapMethod::Get), Some(Route::GetPosition));
    assert_eq!(route_request("vent/target", CoapMethod::Put), Some(Route::PutTarget));
    assert_eq!(route_request("device/identity", CoapMethod::Get), Some(Route::GetIdentity));
    assert_eq!(route_request("device/config", CoapMethod::Get), Some(Route::GetConfig));
    assert_eq!(route_request("device/config", CoapMethod::Put), Some(Route::PutConfig));
    assert_eq!(route_request("device/health", CoapMethod::Get), Some(Route::GetHealth));
}

#[test]
fn unmatched_routes_are_not_found() {
    assert_eq!(route_request("vent/position", CoapMethod::Put), None);
    assert_eq!(route_request("vent/target", CoapMethod::Get), None);
    assert_eq!(route_request("device/health", CoapMethod::Put), None);
    assert_eq!(route_request("", CoapMethod::Get), None);
    assert_eq!(route_request("vent/positions", CoapMethod::Get), None);
}

#[test]
fn method_and_response_codes() {
    assert_eq!(CoapMethod::from_code(1), Some(CoapMethod::Get));
    assert_eq!(CoapMethod::from_code(3), Some(CoapMethod::Put));
    assert_eq!(CoapMethod::from_code(2), None);
    assert_eq!(CoapResponse::BadRequest.code(), 128);
    assert_eq!(CoapResponse::NotFound.code(), 132);
    assert_eq!(CoapResponse::InternalError.code(), 160);
    let s = app(120);
    assert_eq!(handle_get_position(&s).code(), 69);
}

#[test]
fn uri_segments_join_with_slashes() {
    let segs = vec![Some(b"vent".to_vec()), Some(b"target".to_vec())];
    assert_eq!(join_uri_path(&segs), b"vent/target".to_vec());
    let skipped = vec![Some(b"a".to_vec()), None, Some(b"c".to_vec())];
    assert_eq!(join_uri_path(&skipped), b"a//c".to_vec());
    assert_eq!(join_uri_path(&Vec::new()), Vec::<u8>::new());
    let long = vec![Some(vec![b'x'; 100]), Some(vec![b'y'; 100])];
    let joined = join_uri_path(&long);
    assert_eq!(joined.len(), 128);
    assert_eq!(joined[100], b'/');
    assert_eq!(joined[127], b'y');
}

#[test]
fn position_read_reports_angle_and_state() {
    let s = app(120);
    match handle_get_position(&s) {
        CoapResponse::Content(Body::Position(p)) => {
            assert_eq!(p.angle, 120);
            assert_eq!(p.state, VentState::Partial);
        }
        other => panic!("unexpected {:?}", other),
    }
}

#[test]
fn put_target_clamps_and_sets_target() {
    let mut s = app(120);
    let req = TargetRequest { angle: 200 };
    let writes = put_target_writes(&s, &req);
    let ok = persist(&mut s, writes, usize::MAX);
    assert!(ok);
    match handle_put_target(&mut s, Some(req), ok) {
        CoapResponse::Changed(Body::Target(t)) => {
            assert_eq!(t.angle, 180);
            assert_eq!(t.previous_angle, 120);
            assert_eq!(t.state, VentState::Moving);
        }
        other => panic!("unexpected {:?}", other),
    }
    assert_eq!(s.vent.target_angle(), 180);
    assert_eq!(s.vent.current_angle(), 120);
    assert_eq!(s.identity.get_pending(), Some(180));
    assert!(!s.identity.is_committed());
}

#[test]
fn malformed_target_is_bad_request() {
    let mut s = app(120);
    assert!(matches!(handle_put_target(&mut s, None, true), CoapResponse::BadRequest));
    assert_eq!(s.vent.target_angle(), 120);
    assert!(!s.vent.is_moving());
}

#[test]
fn failed_write_ahead_leaves_target_alone() {
    for budget in [0usize, 1] {
        let mut s = app(120);
        let req = TargetRequest { angle: 150 };
        let writes = put_target_writes(&s, &req);
        let ok = persist(&mut s, writes, budget);
        assert!(!ok);
        assert!(matches!(handle_put_target(&mut s, Some(req), ok), CoapResponse::InternalError));
        assert_eq!(s.vent.target_angle(), 120);
        assert!(!s.vent.is_moving());
    }
}

#[test]
fn target_write_ahead_order() {
    let s = app(120);
    let writes = put_target_writes(&s, &TargetRequest { angle: 7 });
    assert_eq!(writes.len(), 2);
    assert!(matches!(writes[0], StoreWrite::Target(90)));
    assert!(matches!(writes[1], StoreWrite::Wal(0)));
    assert_eq!(writes[0].key().as_str(), "target");
    assert_eq!(writes[1].key().as_str(), "wal");
    assert_eq!(writes[0].bytes(), vec![90]);
}

#[test]
fn partial_config_update_keeps_other_fields() {
    let mut s = app(120);
    let first = DeviceConfig {
        room: Some("kitchen".to_string()),
        floor: Some("1".to_string()),
        name: Some("north".to_string()),
    };
    let writes = put_config_writes(&s, &first);
    assert_eq!(writes.len(), 3);
    let ok = persist(&mut s, writes, usize::MAX);
    assert!(ok);
    assert!(matches!(handle_put_config(&s, Some(first), ok), CoapResponse::Content(_)));

    let update = DeviceConfig { room: Some("bedroom".to_string()), floor: None, name: None };
    let writes = put_config_writes(&s, &update);
    assert_eq!(writes.len(), 1);
    assert_eq!(writes[0].bytes(), b"bedroom".to_vec());
    let ok = persist(&mut s, writes, usize::MAX);
    assert!(ok);
    match handle_put_config(&s, Some(update), ok) {
        CoapResponse::Content(Body::Config(c)) => {
            assert_eq!(c.room.as_deref(), Some("bedroom"));
            assert_eq!(c.floor.as_deref(), Some("1"));
            assert_eq!(c.name.as_deref(), Some("north"));
        }
        other => panic!("unexpected {:?}", other),
    }
    match handle_get_config(&s) {
        CoapResponse::Content(Body::Config(c)) => {
            assert_eq!(c.room.as_deref(), Some("bedroom"));
            assert_eq!(c.floor.as_deref(), Some("1"));
            assert_eq!(c.name.as_deref(), Some("north"));
        }
        other => panic!("unexpected {:?}", other),
    }
}

#[test]
fn config_failure_stops_at_first_write() {
    let mut s = app(120);
    let req = DeviceConfig {
        room: Some("hall".to_string()),
        floor: Some("2".to_string()),
        name: None,
    };
    let writes = put_config_writes(&s, &req);
    let ok = persist(&mut s, writes, 1);
    assert!(!ok);
    assert!(matches!(handle_put_config(&s, Some(req), ok), CoapResponse::InternalError));
    assert_eq!(s.identity.get_room().as_deref(), Some("hall"));
    assert_eq!(s.identity.get_floor(), None);
}

#[test]
fn malformed_config_is_bad_request() {
    let s = app(120);
    assert!(matches!(handle_put_config(&s, None, true), CoapResponse::BadRequest));
}

#[test]
fn identity_and_health_replies() {
    let s = app(120);
    match handle_get_identity(&s, "0.1.0", 42) {
        CoapResponse::Content(Body::Identity(i)) => {
            assert_eq!(i.eui64, "aa:bb");
            assert_eq!(i.firmware_version, "0.1.0");
            assert_eq!(i.uptime_s, 42);
        }
        other => panic!("unexpected {:?}", other),
    }
    match handle_get_health(&s, -70, 1000) {
        CoapResponse::Content(Body::Health(h)) => {
            assert_eq!(h.rssi, -70);
            assert_eq!(h.free_heap, 1000);
            assert_eq!(h.power_source, PowerSource::Usb);
            assert_eq!(h.battery_mv, None);
        }
        other => panic!("unexpected {:?}", other),
    }
    let mut battery = app(120);
    battery.power_source = PowerSource::Battery;
    battery.poll_period_ms = 5000;
    match handle_get_health(&battery, -80, 10) {
        CoapResponse::Content(Body::Health(h)) => {
            assert_eq!(h.poll_period_ms, 5000);
            assert_eq!(h.battery_mv, Some(NOMINAL_BATTERY_MV));
        }
        other => panic!("unexpected {:?}", other),
    }
}

#[test]
fn failed_write_ahead_of_pending_intent_is_internal_error() {
    let mut s = app(120);
    let req = TargetRequest { angle: 150 };
    let writes = put_target_writes(&s, &req);
    assert!(persist(&mut s, writes, usize::MAX));
    let again = TargetRequest { angle: 150 };
    let writes = put_target_writes(&s, &again);
    let ok = persist(&mut s, writes, 0);
    assert!(!ok);
    assert!(matches!(handle_put_target(&mut s, Some(again), ok), CoapResponse::InternalError));
    assert_eq!(s.vent.target_angle(), 120);
    assert!(!s.vent.is_moving());
}

#[test]
fn failed_write_of_stored_config_value_is_internal_error() {
    let mut s = app(120);
    let req = DeviceConfig { room: Some("hall".to_string()), floor: None, name: None };
    let writes = put_config_writes(&s, &req);
    assert!(persist(&mut s, writes, usize::MAX));
    let again = DeviceConfig { room: Some("hall".to_string()), floor: None, name: None };
    let writes = put_config_writes(&s, &again);
    let ok = persist(&mut s, writes, 0);
    assert!(!ok);
    assert!(matches!(handle_put_config(&s, Some(again), ok), CoapResponse::InternalError));
}
