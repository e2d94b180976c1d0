use vent_controller::matter::{angle_to_percent100ths, operational_status, percent100ths_to_angle};

#[test]
fn test_angle_to_percent100ths_open() {
    assert_eq!(angle_to_percent100ths(180), 0);
}

#[test]
fn test_angle_to_percent100ths_closed() {
    assert_eq!(angle_to_percent100ths(90), 10000);
}

#[test]
fn test_angle_to_percent100ths_midpoint() {
    assert_eq!(angle_to_percent100ths(135), 5000);
}

#[test]
fn test_angle_to_percent100ths_clamp_low() {
    assert_eq!(angle_to_percent100ths(0), 10000);
}

#[test]
fn test_angle_to_percent100ths_clamp_high() {
    assert_eq!(angle_to_percent100ths(255), 0);
}

#[test]
fn test_percent100ths_to_angle_open() {
    assert_eq!(percent100ths_to_angle(0), 180);
}

#[test]
fn test_percent100ths_to_angle_closed() {
    assert_eq!(percent100ths_to_angle(10000), 90);
}

#[test]
fn test_percent100ths_to_angle_midpoint() {
    assert_eq!(percent100ths_to_angle(5000), 135);
}

#[test]
fn test_percent100ths_to_angle_clamp_over() {
    assert_eq!(percent100ths_to_angle(20000), 90);
}

#[test]
fn test_roundtrip_open() {
    assert_eq!(percent100ths_to_angle(angle_to_percent100ths(180)), 180);
}

#[test]
fn test_roundtrip_closed() {
    assert_eq!(percent100ths_to_angle(angle_to_percent100ths(90)), 90);
}

#[test]
fn test_roundtrip_partial() {
    for angle in 90..=180 {
        let pct = angle_to_percent100ths(angle);
        let back = percent100ths_to_angle(pct);
        assert!(
            (back as i16 - angle as i16).abs() <= 1,
            "angle {} -> pct {} -> back {}", angle, pct, back
        );
    }
}

#[test]
fn conversion_exact_values() {
    assert_eq!(angle_to_percent100ths(91), 9888);
    assert_eq!(angle_to_percent100ths(179), 111);
    assert_eq!(percent100ths_to_angle(111), 180);
    assert_eq!(percent100ths_to_angle(112), 179);
    assert_eq!(percent100ths_to_angle(9999), 91);
    assert_eq!(percent100ths_to_angle(65535), 90);
}

#[test]
fn percent_round_trip_stays_within_one_degree() {
    for p in 0..=10000u16 {
        let back = angle_to_percent100ths(percent100ths_to_angle(p));
        assert!(back <= p);
        assert!(p - back <= 111, "p {} back {}", p, back);
    }
    assert_eq!(angle_to_percent100ths(percent100ths_to_angle(100)), 0);
}

#[test]
fn status_reflects_motion() {
    assert_eq!(operational_status(true), 1);
    assert_eq!(operational_status(false), 0);
}
