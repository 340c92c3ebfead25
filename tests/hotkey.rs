use tao::hotkey::{
    GlobalAccelerator, HotKey, HotKeyManager, HotKeyManagerError, Key, ModifiersState, RawMods,
    SysMods, ALT, CONTROL, SHIFT, SUPER, TRACKED_MODIFIERS,
};
use tao::platform::{DeviceId, OsError, Platform};

#[test]
fn raw_mods_bits_follow_their_modifiers() {
    assert_eq!(RawMods::Empty.bits(), 0);
    assert_eq!(RawMods::Alt.bits(), ALT);
    assert_eq!(RawMods::Ctrl.bits(), CONTROL);
    assert_eq!(RawMods::Meta.bits(), SUPER);
    assert_eq!(RawMods::Shift.bits(), SHIFT);
    assert_eq!(RawMods::CtrlShift.bits(), CONTROL | SHIFT);
    assert_eq!(RawMods::AltCtrlMetaShift.bits(), TRACKED_MODIFIERS);
    assert_eq!(TRACKED_MODIFIERS, SHIFT | CONTROL | ALT | SUPER);
}

#[test]
fn modifiers_state_from_raw_mods() {
    let state = ModifiersState::from(RawMods::AltMetaShift);
    assert!(state.alt_key());
    assert!(!state.control_key());
    assert!(state.super_key());
    assert!(state.shift_key());
    assert_eq!(state.bits, ALT | SUPER | SHIFT);
}

#[test]
fn modifiers_state_set_and_clear() {
    let mut state = ModifiersState::empty();
    state.set(CONTROL, true);
    state.set(SHIFT, true);
    assert_eq!(state.bits, CONTROL | SHIFT);
    state.set(CONTROL, false);
    assert_eq!(state.bits, SHIFT);
}

#[test]
fn every_modifier_subset_has_exactly_one_variant() {
    let all = [
        RawMods::Empty,
        RawMods::Alt,
        RawMods::Ctrl,
        RawMods::Meta,
        RawMods::Shift,
        RawMods::AltCtrl,
        RawMods::AltMeta,
        RawMods::AltShift,
        RawMods::CtrlShift,
        RawMods::CtrlMeta,
        RawMods::MetaShift,
        RawMods::AltCtrlMeta,
        RawMods::AltCtrlShift,
        RawMods::AltMetaShift,
        RawMods::CtrlMetaShift,
        RawMods::AltCtrlMetaShift,
    ];
    for (i, a) in all.iter().enumerate() {
        for (j, b) in all.iter().enumerate() {
            assert_eq!(i == j, a.bits() == b.bits());
        }
        let s = ModifiersState::from(*a);
        let back = RawMods::from_flags(s.alt_key(), s.control_key(), s.super_key(), s.shift_key());
        assert_eq!(back, *a);
    }
}

#[test]
fn sys_mods_resolve_per_platform() {
    assert_eq!(SysMods::Cmd.to_raw_mods(Platform::MacOs), RawMods::Meta);
    assert_eq!(SysMods::Cmd.to_raw_mods(Platform::Linux), RawMods::Ctrl);
    assert_eq!(SysMods::Cmd.to_raw_mods(Platform::Windows), RawMods::Ctrl);
    assert_eq!(SysMods::AltCmdShift.to_raw_mods(Platform::MacOs), RawMods::AltMetaShift);
    assert_eq!(SysMods::AltCmdShift.to_raw_mods(Platform::Windows), RawMods::AltCtrlShift);
    assert_eq!(SysMods::Shift.to_raw_mods(Platform::MacOs), RawMods::Shift);
    assert_eq!(SysMods::Empty.to_raw_mods(Platform::Linux), RawMods::Empty);
    let state = ModifiersState::from_bits(CONTROL);
    assert!(SysMods::Cmd.eq_state(&state, Platform::Linux));
    assert!(!SysMods::Cmd.eq_state(&state, Platform::MacOs));
}

#[test]
fn hotkey_new_defaults_to_no_modifiers() {
    let h = HotKey::new(None, Key::Character('q'));
    assert_eq!(h.mods, RawMods::Empty);
    assert_eq!(h.key, Key::Character('q'));
    let h = HotKey::new(Some(RawMods::CtrlShift), Key::Enter);
    assert_eq!(h.mods, RawMods::CtrlShift);
}

#[test]
fn hotkey_matches_exact_state() {
    let h = HotKey::new(Some(RawMods::CtrlShift), Key::Character('s'));
    assert!(h.matches(ModifiersState::from_bits(CONTROL | SHIFT), Key::Character('s')));
    assert!(!h.matches(ModifiersState::from_bits(CONTROL), Key::Character('s')));
    assert!(!h.matches(ModifiersState::from_bits(CONTROL | SHIFT | ALT), Key::Character('s')));
    assert!(!h.matches(ModifiersState::from_bits(CONTROL | SHIFT), Key::Character('t')));
}

#[test]
fn hotkey_matches_ignores_untracked_bits() {
    let h = HotKey::new(Some(RawMods::Alt), Key::Function(4));
    let extra: u32 = 0x1 | 0x2 | 0x10 | 0x1000 | 0x8000_0000;
    assert_eq!(extra & TRACKED_MODIFIERS, 0);
    for bits in [0, ALT, ALT | SHIFT, CONTROL] {
        assert_eq!(
            h.matches(ModifiersState::from_bits(bits | extra), Key::Function(4)),
            h.matches(ModifiersState::from_bits(bits), Key::Function(4))
        );
    }
    assert!(h.matches(ModifiersState::from_bits(ALT | extra), Key::Function(4)));
}

#[test]
fn hash_input_encodes_modifiers_and_key() {
    let h = HotKey::new(Some(RawMods::CtrlShift), Key::Character('A'));
    assert_eq!(h.hash_input(), vec![0x24, 0x00, 0, 0x41, 0, 0, 0]);
    let h = HotKey::new(Some(RawMods::AltCtrlMetaShift), Key::Character('\u{1F600}'));
    assert_eq!(h.hash_input(), vec![0x24, 0x09, 0, 0x00, 0xF6, 0x01, 0x00]);
    let h = HotKey::new(None, Key::ArrowUp);
    assert_eq!(h.hash_input(), vec![0, 0, 13, 0, 0, 0, 0]);
}

#[test]
fn hotkey_id_is_deterministic() {
    let a = HotKey::new(Some(RawMods::Ctrl), Key::Character('c'));
    let b = HotKey::new(Some(RawMods::Ctrl), Key::Character('c'));
    assert_eq!(a.id(), b.id());
    assert_eq!(a.id(), a.id());
    let mut hasher = std::collections::hash_map::DefaultHasher::new();
    std::hash::Hasher::write(&mut hasher, &a.hash_input());
    assert_eq!(a.id(), std::hash::Hasher::finish(&hasher) as u16);
}

#[test]
fn registration_is_structural_not_by_identifier() {
    let mut manager = HotKeyManager::new();
    let a = HotKey::new(Some(RawMods::Ctrl), Key::Character('c'));
    let b = HotKey::new(Some(RawMods::Alt), Key::Character('c'));
    manager.register(a).unwrap();
    assert!(manager.is_registered(&a));
    assert!(!manager.is_registered(&b));
    assert!(manager.register(b).is_ok());
}

#[test]
fn identifier_collisions_do_not_alias_registrations() {
    // Among more hotkeys than there are identifiers, two distinct ones must share one.
    let mut seen = std::collections::HashMap::new();
    let mut collision = None;
    for code in 0x4E00u32..0x4E00 + 0x1_0001 {
        let h = HotKey::new(None, Key::Character(char::from_u32(code).unwrap()));
        if let Some(other) = seen.insert(h.id(), h) {
            collision = Some((other, h));
            break;
        }
    }
    let (first, second) = collision.unwrap();
    assert_ne!(first, second);
    assert_eq!(first.id(), second.id());
    let mut manager = HotKeyManager::new();
    manager.register(first).unwrap();
    assert!(!manager.is_registered(&second));
    let accelerator = manager.register(second).unwrap();
    assert_eq!(accelerator.id(), first.id());
    assert_eq!(manager.run().len(), 2);
}

#[test]
fn duplicate_registration_fails_and_keeps_the_set() {
    let mut manager = HotKeyManager::new();
    let h = HotKey::new(Some(RawMods::AltShift), Key::Character('x'));
    let first = manager.register(h).unwrap();
    assert_eq!(first.hotkey(), h);
    assert_eq!(first.id(), h.id());
    let pending = manager.clone().run();
    assert_eq!(pending.len(), 1);
    match manager.register(h) {
        Err(HotKeyManagerError::HotKeyAlreadyRegistered(k)) => assert_eq!(k, h),
        other => panic!("unexpected {:?}", other),
    }
    assert_eq!(manager.run().len(), 1);
}

#[test]
fn unregister_absent_hotkey_fails() {
    let mut manager = HotKeyManager::default();
    let h = HotKey::new(None, Key::Escape);
    match manager.unregister(&h) {
        Err(HotKeyManagerError::HotKeyNotRegistered(k)) => assert_eq!(k, h),
        other => panic!("unexpected {:?}", other),
    }
    manager.register(h).unwrap();
    let removed = manager.unregister(&h).unwrap();
    assert_eq!(removed.hotkey(), h);
    assert!(!manager.is_registered(&h));
    assert!(manager.run().is_empty());
}

#[test]
fn run_hands_over_pending_hotkeys_once_in_order() {
    let mut manager = HotKeyManager::new();
    let a = HotKey::new(Some(RawMods::Ctrl), Key::Character('a'));
    let b = HotKey::new(Some(RawMods::Ctrl), Key::Character('b'));
    let c = HotKey::new(Some(RawMods::Ctrl), Key::Character('c'));
    manager.register(a).unwrap();
    manager.register(b).unwrap();
    let first: Vec<HotKey> = manager.run().iter().map(GlobalAccelerator::hotkey).collect();
    assert_eq!(first, vec![a, b]);
    assert!(manager.is_bound(&a));
    assert!(manager.is_bound(&b));
    manager.register(c).unwrap();
    assert!(!manager.is_bound(&c));
    let second: Vec<HotKey> = manager.run().iter().map(GlobalAccelerator::hotkey).collect();
    assert_eq!(second, vec![c]);
    assert!(manager.run().is_empty());
    manager.unregister(&a).unwrap();
    assert!(manager.is_bound(&b));
    assert!(manager.is_bound(&c));
}

#[test]
fn invalid_hotkey_error_carries_reason() {
    let e = HotKeyManagerError::InvalidHotKey(String::from("reserved by the system"));
    match e {
        HotKeyManagerError::InvalidHotKey(reason) => assert_eq!(reason, "reserved by the system"),
        _ => panic!("wrong variant"),
    }
}

#[test]
fn platform_values() {
    assert_eq!(DeviceId::dummy(), DeviceId(0));
    let e = OsError::new("create tray", "icon");
    assert_eq!(e.operation, "create tray");
    assert_eq!(e.resource, "icon");
}
