use lolshorts::hotkey::{
    dispatch_messages, hotkey_action, HotkeyAction, HotkeyEvent, HotkeyManager, HOTKEY_F10, HOTKEY_F8,
    HOTKEY_F9,
};

#[test]
fn test_hotkey_manager_creation() {
    let manager = HotkeyManager::new();
    assert!(!manager.is_enabled());
}

#[test]
fn test_hotkey_event_equality() {
    assert_eq!(HotkeyEvent::ToggleAutoCapture, HotkeyEvent::ToggleAutoCapture);
    assert_ne!(HotkeyEvent::ToggleAutoCapture, HotkeyEvent::SaveReplay60);
}

#[test]
fn hotkey_ids_round_trip() {
    for e in [HotkeyEvent::ToggleAutoCapture, HotkeyEvent::SaveReplay60, HotkeyEvent::SaveReplay30] {
        assert_eq!(HotkeyEvent::from_hotkey_id(e.hotkey_id()), Some(e));
    }
    assert_eq!(HotkeyEvent::from_hotkey_id(HOTKEY_F8), Some(HotkeyEvent::ToggleAutoCapture));
    assert_eq!(HotkeyEvent::from_hotkey_id(HOTKEY_F9), Some(HotkeyEvent::SaveReplay60));
    assert_eq!(HotkeyEvent::from_hotkey_id(HOTKEY_F10), Some(HotkeyEvent::SaveReplay30));
    assert_eq!(HotkeyEvent::from_hotkey_id(99), None);
}

#[test]
fn hotkey_listener_state() {
    let mut manager = HotkeyManager::new();
    manager.mark_started();
    assert!(manager.is_enabled());
    manager.stop();
    assert!(!manager.is_enabled());
}

#[test]
fn messages_dispatch_in_order() {
    assert_eq!(
        dispatch_messages(&vec![1, 7, 2, 3, 0, 1]),
        vec![
            HotkeyEvent::ToggleAutoCapture,
            HotkeyEvent::SaveReplay60,
            HotkeyEvent::SaveReplay30,
            HotkeyEvent::ToggleAutoCapture
        ]
    );
    assert!(dispatch_messages(&vec![4, -1]).is_empty());
    assert_eq!(hotkey_action(HotkeyEvent::ToggleAutoCapture, true), HotkeyAction::StopAutoCapture);
    assert_eq!(hotkey_action(HotkeyEvent::ToggleAutoCapture, false), HotkeyAction::StartAutoCapture);
    assert_eq!(hotkey_action(HotkeyEvent::SaveReplay60, false), HotkeyAction::SaveReplay(60));
    assert_eq!(hotkey_action(HotkeyEvent::SaveReplay30, true), HotkeyAction::SaveReplay(30));
}
