use vent_controller::protocol::{
    clamp_angle, same_text, PowerSource, VentState, ANGLE_CLOSED, ANGLE_OPEN,
};

#[test]
fn test_vent_state_from_angle() {
    assert_eq!(VentState::from_angle(90), VentState::Closed);
    assert_eq!(VentState::from_angle(180), VentState::Open);
    assert_eq!(VentState::from_angle(135), VentState::Partial);
}

#[test]
fn test_clamp_angle() {
    assert_eq!(clamp_angle(0), ANGLE_CLOSED);
    assert_eq!(clamp_angle(90), 90);
    assert_eq!(clamp_angle(135), 135);
    assert_eq!(clamp_angle(180), 180);
    assert_eq!(clamp_angle(255), ANGLE_OPEN);
}

#[test]
fn clamp_maps_just_outside_to_nearest_bound() {
    assert_eq!(clamp_angle(89), 90);
    assert_eq!(clamp_angle(181), 180);
    for a in 90..=180u8 {
        assert_eq!(clamp_angle(a), a);
    }
    for a in 0..90u8 {
        assert_eq!(clamp_angle(a), ANGLE_CLOSED);
    }
    for a in 181..=255u8 {
        assert_eq!(clamp_angle(a), ANGLE_OPEN);
    }
}

#[test]
fn state_and_source_names() {
    assert_eq!(VentState::Open.as_str(), "open");
    assert_eq!(VentState::Closed.as_str(), "closed");
    assert_eq!(VentState::Partial.as_str(), "partial");
    assert_eq!(VentState::Moving.as_str(), "moving");
    assert_eq!(PowerSource::Usb.as_str(), "usb");
    assert_eq!(PowerSource::Battery.as_str(), "battery");
}

#[test]
fn same_text_compares_characters() {
    assert!(same_text("vent/target", "vent/target"));
    assert!(!same_text("vent/target", "vent/targe"));
    assert!(!same_text("", "x"));
}
