use gamepad_bridge::mapper::{
    button_to_w3c, TriggerDebounce, TriggerSide, VendorButton, LEFT_TRIGGER_INDEX,
    RIGHT_TRIGGER_INDEX, TRIGGER_THRESHOLD, UNMAPPED,
};

#[test]
fn mapper_full_table() {
    assert_eq!(button_to_w3c(VendorButton::A), 0);
    assert_eq!(button_to_w3c(VendorButton::B), 1);
    assert_eq!(button_to_w3c(VendorButton::X), 2);
    assert_eq!(button_to_w3c(VendorButton::Y), 3);
    assert_eq!(button_to_w3c(VendorButton::LeftShoulder), 4);
    assert_eq!(button_to_w3c(VendorButton::RightShoulder), 5);
    assert_eq!(button_to_w3c(VendorButton::Back), 8);
    assert_eq!(button_to_w3c(VendorButton::Start), 9);
    assert_eq!(button_to_w3c(VendorButton::LeftStick), 10);
    assert_eq!(button_to_w3c(VendorButton::RightStick), 11);
    assert_eq!(button_to_w3c(VendorButton::DPadUp), 12);
    assert_eq!(button_to_w3c(VendorButton::DPadDown), 13);
    assert_eq!(button_to_w3c(VendorButton::DPadLeft), 14);
    assert_eq!(button_to_w3c(VendorButton::DPadRight), 15);
    assert_eq!(button_to_w3c(VendorButton::Guide), 16);
}

#[test]
fn mapper_unknown_is_sentinel() {
    assert_eq!(button_to_w3c(VendorButton::Other), UNMAPPED);
}

#[test]
fn trigger_indices_are_reserved() {
    assert_eq!(LEFT_TRIGGER_INDEX, 6);
    assert_eq!(RIGHT_TRIGGER_INDEX, 7);
    for b in [
        VendorButton::A,
        VendorButton::B,
        VendorButton::X,
        VendorButton::Y,
        VendorButton::LeftShoulder,
        VendorButton::RightShoulder,
        VendorButton::Back,
        VendorButton::Start,
        VendorButton::LeftStick,
        VendorButton::RightStick,
        VendorButton::DPadUp,
        VendorButton::DPadDown,
        VendorButton::DPadLeft,
        VendorButton::DPadRight,
        VendorButton::Guide,
        VendorButton::Other,
    ] {
        let idx = button_to_w3c(b);
        assert_ne!(idx, 6);
        assert_ne!(idx, 7);
    }
}

#[test]
fn debounce_single_pulse_on_rise_then_fall() {
    let mut latch = TriggerDebounce::new();
    let samples: [i16; 9] = [2000, 7000, 8500, 9000, 12000, 9000, 5000, 3500, 1000];
    let mut pulses = 0;
    for v in samples {
        if let Some(idx) = latch.sample(TriggerSide::Left, v) {
            assert_eq!(idx, LEFT_TRIGGER_INDEX);
            pulses += 1;
        }
    }
    assert_eq!(pulses, 1);
    assert!(!latch.left_pressed);
    assert!(!latch.right_pressed);
}

#[test]
fn debounce_no_pulse_without_crossing() {
    let mut latch = TriggerDebounce::new();
    for v in [0, 1000, 4000, TRIGGER_THRESHOLD, 4000, 0] {
        assert_eq!(latch.sample(TriggerSide::Right, v), None);
    }
}

#[test]
fn debounce_second_pulse_needs_release_first() {
    let mut latch = TriggerDebounce::new();
    assert_eq!(latch.sample(TriggerSide::Right, 9000), Some(RIGHT_TRIGGER_INDEX));
    // chatter above and near the threshold: latched, so nothing more
    assert_eq!(latch.sample(TriggerSide::Right, 12000), None);
    assert_eq!(latch.sample(TriggerSide::Right, 8100), None);
    assert_eq!(latch.sample(TriggerSide::Right, 5000), None);
    // release below half the threshold, then a second crossing
    assert_eq!(latch.sample(TriggerSide::Right, 3000), None);
    assert_eq!(latch.sample(TriggerSide::Right, 9500), Some(RIGHT_TRIGGER_INDEX));
}

#[test]
fn debounce_sides_are_independent() {
    let mut latch = TriggerDebounce::new();
    assert_eq!(latch.sample(TriggerSide::Left, 9000), Some(LEFT_TRIGGER_INDEX));
    assert_eq!(latch.sample(TriggerSide::Right, 9000), Some(RIGHT_TRIGGER_INDEX));
    assert!(latch.left_pressed);
    assert!(latch.right_pressed);
}

#[test]
fn debounce_reset_releases_both_latches() {
    let mut latch = TriggerDebounce::new();
    latch.sample(TriggerSide::Left, 9000);
    latch.sample(TriggerSide::Right, 9000);
    latch.reset();
    assert!(!latch.left_pressed);
    assert!(!latch.right_pressed);
    assert_eq!(latch.sample(TriggerSide::Left, 9000), Some(LEFT_TRIGGER_INDEX));
}
