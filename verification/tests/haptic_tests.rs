use gamepad_bridge::haptic::{
    compute_command, dispatch_batch, dispatch_request, HapticRequest, FULL_STRENGTH,
};
use gamepad_bridge::registry::Registry;

/// The fixed-point strength that the application boundary produces for a
/// unit-interval value.
fn strength_of(unit: f32) -> u16 {
    (unit.clamp(0.0, 1.0) * FULL_STRENGTH as f32) as u16
}

#[test]
fn fan_out_reaches_every_capable_device_once() {
    let mut reg = Registry::new();
    reg.open_device(1, String::from("A"), true);
    reg.open_device(2, String::from("B"), false);
    reg.open_device(3, String::from("C"), true);
    let req = HapticRequest { strength: 40000, duration_ms: 150 };
    let cmds = dispatch_request(&reg, &req);
    assert_eq!(cmds.len(), 2);
    assert_eq!(cmds[0].instance_id, 1);
    assert_eq!(cmds[1].instance_id, 3);
    for cmd in &cmds {
        assert_eq!(cmd.high_amplitude, 40000);
        assert_eq!(cmd.low_amplitude, (40000u32 * 3 / 10) as u16);
        assert_eq!(cmd.duration_ms, 150);
    }
}

#[test]
fn fan_out_with_no_capable_device_is_empty() {
    let mut reg = Registry::new();
    reg.open_device(1, String::from("A"), false);
    let req = HapticRequest { strength: 30000, duration_ms: 100 };
    assert!(dispatch_request(&reg, &req).is_empty());
    let empty = Registry::new();
    assert!(dispatch_request(&empty, &req).is_empty());
}

#[test]
fn half_strength_scenario_reaches_both_devices() {
    let mut reg = Registry::new();
    reg.open_device(4, String::from("Left pad"), true);
    reg.open_device(5, String::from("Right pad"), true);
    let req = HapticRequest { strength: strength_of(0.5), duration_ms: 200 };
    let cmds = dispatch_request(&reg, &req);
    assert_eq!(cmds.len(), 2);
    let expected_high = (0.5f32 * 65535.0) as u16;
    for cmd in &cmds {
        assert_eq!(cmd.high_amplitude, expected_high);
        assert_eq!(cmd.low_amplitude, (expected_high as u32 * 3 / 10) as u16);
        assert_eq!(cmd.duration_ms, 200);
    }
    // over-unit strength is the caller-facing boundary's to clamp; the
    // dispatcher itself only forwards what the request carries
    assert_eq!(strength_of(1.5), FULL_STRENGTH);
    let loud = HapticRequest { strength: FULL_STRENGTH, duration_ms: 200 };
    let loud_cmds = dispatch_request(&reg, &loud);
    assert_eq!(loud_cmds[0].high_amplitude, FULL_STRENGTH);
    assert_eq!(loud_cmds[0].low_amplitude, (FULL_STRENGTH as u32 * 3 / 10) as u16);
}

#[test]
fn amplitude_formula_is_exact() {
    let mut reg = Registry::new();
    reg.open_device(9, String::from("Pad"), true);
    let cmd = compute_command(reg.entry_at(0), &HapticRequest { strength: 1000, duration_ms: 8 });
    assert_eq!(cmd.instance_id, 9);
    assert_eq!(cmd.high_amplitude, 1000);
    assert_eq!(cmd.low_amplitude, 300);
    assert_eq!(cmd.duration_ms, 8);
    let full = compute_command(
        reg.entry_at(0),
        &HapticRequest { strength: FULL_STRENGTH, duration_ms: 8 },
    );
    assert_eq!(full.high_amplitude, 65535);
    assert_eq!(full.low_amplitude, 19660);
}

#[test]
fn batch_drains_in_order() {
    let mut reg = Registry::new();
    reg.open_device(1, String::from("A"), true);
    reg.open_device(2, String::from("B"), true);
    let reqs = vec![
        HapticRequest { strength: 100, duration_ms: 10 },
        HapticRequest { strength: 200, duration_ms: 20 },
    ];
    let cmds = dispatch_batch(&reg, &reqs);
    assert_eq!(cmds.len(), 4);
    assert_eq!(cmds[0].high_amplitude, 100);
    assert_eq!(cmds[0].instance_id, 1);
    assert_eq!(cmds[1].high_amplitude, 100);
    assert_eq!(cmds[1].instance_id, 2);
    assert_eq!(cmds[2].high_amplitude, 200);
    assert_eq!(cmds[2].instance_id, 1);
    assert_eq!(cmds[3].high_amplitude, 200);
    assert_eq!(cmds[3].instance_id, 2);
}

#[test]
fn empty_batch_yields_nothing() {
    let mut reg = Registry::new();
    reg.open_device(1, String::from("A"), true);
    assert!(dispatch_batch(&reg, &Vec::new()).is_empty());
}
