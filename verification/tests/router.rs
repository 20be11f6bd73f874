use d_switch::router::{
    classify, hotkey_bindings, menu_entries, HotkeyBinding, Intent, MenuEntry, OsEvent,
    MENU_EXIT_ID, TRAY_SECONDARY_RELEASE,
};

#[test]
fn creation_initializes() {
    assert_eq!(classify(OsEvent::WindowCreated), Intent::Initialize);
}

#[test]
fn hotkey_slots_map_to_desktop_indices() {
    assert_eq!(classify(OsEvent::HotkeyPressed { id: 1 }), Intent::SwitchTo { index: 0 });
    assert_eq!(classify(OsEvent::HotkeyPressed { id: 5 }), Intent::SwitchTo { index: 4 });
    assert_eq!(classify(OsEvent::HotkeyPressed { id: 9 }), Intent::SwitchTo { index: 8 });
}

#[test]
fn hotkeys_outside_the_slots_are_ignored() {
    assert_eq!(classify(OsEvent::HotkeyPressed { id: 0 }), Intent::Ignore);
    assert_eq!(classify(OsEvent::HotkeyPressed { id: 10 }), Intent::Ignore);
    assert_eq!(classify(OsEvent::HotkeyPressed { id: -3 }), Intent::Ignore);
}

#[test]
fn tray_secondary_release_shows_the_menu() {
    assert_eq!(
        classify(OsEvent::TrayIconNotified { code: TRAY_SECONDARY_RELEASE }),
        Intent::ShowMenu
    );
    assert_eq!(classify(OsEvent::TrayIconNotified { code: 0x0201 }), Intent::Ignore);
}

#[test]
fn menu_selection_matches_hotkey_press() {
    for slot in 1..=9 {
        assert_eq!(
            classify(OsEvent::MenuCommand { command: slot as usize }),
            classify(OsEvent::HotkeyPressed { id: slot })
        );
    }
}

#[test]
fn menu_exit_and_strays() {
    assert_eq!(classify(OsEvent::MenuCommand { command: MENU_EXIT_ID }), Intent::Exit);
    assert_eq!(classify(OsEvent::MenuCommand { command: 0 }), Intent::Ignore);
    assert_eq!(classify(OsEvent::MenuCommand { command: 500 }), Intent::Ignore);
}

#[test]
fn destruction_tears_down_and_rest_is_ignored() {
    assert_eq!(classify(OsEvent::WindowDestroyed), Intent::Teardown);
    assert_eq!(classify(OsEvent::Other), Intent::Ignore);
}

#[test]
fn hotkey_bindings_cover_the_nine_digit_keys() {
    let bindings = hotkey_bindings();
    assert_eq!(bindings.len(), 9);
    assert_eq!(bindings[0], HotkeyBinding { id: 1, virtual_key: 0x31 });
    assert_eq!(bindings[8], HotkeyBinding { id: 9, virtual_key: 0x39 });
    for (k, b) in bindings.iter().enumerate() {
        assert_eq!(b.id as usize, k + 1);
        assert_eq!(b.virtual_key, 0x31 + k as u32);
    }
}

#[test]
fn menu_lists_slots_then_separator_then_exit() {
    let entries = menu_entries();
    assert_eq!(entries.len(), 11);
    for k in 0..9 {
        assert_eq!(entries[k], MenuEntry::DesktopSlot { id: k + 1 });
    }
    assert_eq!(entries[9], MenuEntry::Separator);
    assert_eq!(entries[10], MenuEntry::Exit { id: MENU_EXIT_ID });
}
