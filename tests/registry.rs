use bevy_tao::{CreateOutcome, TaoWindows};

#[test]
fn create_then_lookup_both_ways() {
    let mut reg: TaoWindows<&str> = TaoWindows::new();
    assert!(matches!(reg.create_window(7, 100, "first"), CreateOutcome::Created));
    assert_eq!(reg.get_window(7), Some(&"first"));
    assert_eq!(reg.get_window_entity(100), Some(7));
    assert_eq!(reg.get_window(8), None);
    assert_eq!(reg.get_window_entity(101), None);
}

#[test]
fn creating_twice_for_one_entity_keeps_the_first_window() {
    let mut reg: TaoWindows<&str> = TaoWindows::new();
    assert!(matches!(reg.create_window(7, 100, "first"), CreateOutcome::Created));
    match reg.create_window(7, 200, "second") {
        CreateOutcome::AlreadyRegistered(w) => assert_eq!(w, "second"),
        _ => panic!("second creation must be refused"),
    }
    assert_eq!(reg.get_window(7), Some(&"first"));
    assert_eq!(reg.windows.len(), 1);
    assert_eq!(reg.get_window_entity(200), None);
}

#[test]
fn every_registered_entity_is_found_from_its_native_id() {
    let mut reg: TaoWindows<u32> = TaoWindows::new();
    for (entity, native) in [(1u64, 11u64), (2, 12), (3, 13)] {
        assert!(matches!(reg.create_window(entity, native, 0), CreateOutcome::Created));
    }
    for entity in [1u64, 2, 3] {
        let native = reg.entity_to_tao[&entity];
        assert_eq!(reg.get_window_entity(native), Some(entity));
    }
}

#[test]
fn removal_keeps_the_native_id_known() {
    let mut reg: TaoWindows<&str> = TaoWindows::new();
    reg.create_window(7, 100, "w");
    assert_eq!(reg.remove_window(7), Some("w"));
    assert_eq!(reg.get_window(7), None);
    assert_eq!(reg.get_window_entity(100), Some(7));
    assert_eq!(reg.remove_window(7), None);
}

#[test]
fn a_known_native_id_is_never_reused() {
    let mut reg: TaoWindows<&str> = TaoWindows::new();
    reg.create_window(7, 100, "w");
    reg.remove_window(7);
    match reg.create_window(8, 100, "other") {
        CreateOutcome::NativeIdTaken(w) => assert_eq!(w, "other"),
        _ => panic!("a closed window's native id must stay taken"),
    }
    assert_eq!(reg.get_window(8), None);
    assert_eq!(reg.get_window_entity(100), Some(7));
}
