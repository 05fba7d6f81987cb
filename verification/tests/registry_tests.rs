use gamepad_bridge::registry::Registry;

#[test]
fn open_emits_connected_with_name() {
    let mut reg = Registry::new();
    let ev = reg.open_device(3, String::from("Pad One"), true);
    assert!(ev.connected);
    assert_eq!(ev.name, "Pad One");
    assert_eq!(reg.len(), 1);
    assert_eq!(reg.entry_at(0).instance_id, 3);
    assert!(reg.entry_at(0).has_haptic);
}

#[test]
fn remove_emits_disconnected_with_same_name() {
    let mut reg = Registry::new();
    reg.open_device(3, String::from("Pad One"), true);
    let ev = reg.remove_device(3).expect("known id must emit");
    assert!(!ev.connected);
    assert_eq!(ev.name, "Pad One");
    assert_eq!(reg.len(), 0);
}

#[test]
fn remove_unknown_is_a_no_op() {
    let mut reg = Registry::new();
    reg.open_device(3, String::from("Pad One"), true);
    reg.open_device(8, String::from("Pad Two"), false);
    assert_eq!(reg.remove_device(99), None);
    assert_eq!(reg.len(), 2);
    assert_eq!(reg.entry_at(0).instance_id, 3);
    assert_eq!(reg.entry_at(1).instance_id, 8);
}

#[test]
fn remove_takes_first_match_and_closes_the_gap() {
    let mut reg = Registry::new();
    reg.open_device(1, String::from("A"), false);
    reg.open_device(2, String::from("B"), true);
    reg.open_device(3, String::from("C"), false);
    let ev = reg.remove_device(2).unwrap();
    assert_eq!(ev.name, "B");
    assert_eq!(reg.len(), 2);
    assert_eq!(reg.entry_at(0).instance_id, 1);
    assert_eq!(reg.entry_at(1).instance_id, 3);
}

#[test]
fn entries_keep_attachment_order() {
    let mut reg = Registry::new();
    for (id, name) in [(10u32, "first"), (20, "second"), (30, "third")] {
        reg.open_device(id, String::from(name), id == 20);
    }
    assert_eq!(reg.entry_at(0).name, "first");
    assert_eq!(reg.entry_at(1).name, "second");
    assert_eq!(reg.entry_at(2).name, "third");
    assert!(!reg.entry_at(0).has_haptic);
    assert!(reg.entry_at(1).has_haptic);
}
