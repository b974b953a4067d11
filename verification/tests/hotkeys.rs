use screen_grabber::hotkeys::{EditorAction, Enter, EnterAction, HotkeyState, KeyEvent};

fn keys(k: &[&str]) -> Vec<String> {
    k.iter().map(|s| s.to_string()).collect()
}

fn state(hotkey: &[&str]) -> HotkeyState {
    HotkeyState {
        hotkey: keys(hotkey),
        hotkey_new: Vec::new(),
        hotkey_pressed: Vec::new(),
        set_hot_key: false,
        trigger_ui: false,
        error_shown: false,
        error_message: String::new(),
    }
}

fn down(s: &mut HotkeyState, k: &str) -> EnterAction {
    Enter.event(&KeyEvent::KeyDown(k.to_string()), s)
}

#[test]
fn window_connection_asks_for_focus() {
    let mut s = state(&["Control", "s"]);
    assert_eq!(Enter.event(&KeyEvent::WindowConnected, &mut s), EnterAction::RequestFocus);
    assert!(s.hotkey_pressed.is_empty());
}

#[test]
fn whole_combination_starts_a_screenshot() {
    let mut s = state(&["Control", "s"]);
    assert_eq!(down(&mut s, "Control"), EnterAction::Nothing);
    assert_eq!(s.hotkey_pressed, keys(&["Control"]));
    assert_eq!(down(&mut s, "Control"), EnterAction::Nothing);
    assert_eq!(s.hotkey_pressed, keys(&["Control"]));
    assert_eq!(down(&mut s, "s"), EnterAction::StartScreening);
    assert!(s.hotkey_pressed.is_empty());
}

#[test]
fn another_key_forgets_held_keys() {
    let mut s = state(&["Control", "s"]);
    down(&mut s, "Control");
    assert_eq!(down(&mut s, "x"), EnterAction::Nothing);
    assert!(s.hotkey_pressed.is_empty());
}

#[test]
fn releasing_a_hotkey_key_forgets_held_keys() {
    let mut s = state(&["Control", "s"]);
    down(&mut s, "Control");
    assert_eq!(Enter.event(&KeyEvent::KeyUp("x".to_string()), &mut s), EnterAction::Nothing);
    assert_eq!(s.hotkey_pressed, keys(&["Control"]));
    Enter.event(&KeyEvent::KeyUp("Control".to_string()), &mut s);
    assert!(s.hotkey_pressed.is_empty());
}

#[test]
fn recording_takes_up_to_three_distinct_keys() {
    let mut s = state(&["a"]);
    assert_eq!(s.edit_or_save(), EditorAction::Stay);
    assert!(s.set_hot_key);
    down(&mut s, "Shift");
    assert!(s.trigger_ui);
    down(&mut s, "Shift");
    assert!(s.error_shown);
    assert_eq!(s.error_message, "Only distinct keys");
    down(&mut s, "Alt");
    assert!(!s.error_shown);
    down(&mut s, "p");
    down(&mut s, "q");
    assert_eq!(s.hotkey_new, keys(&["Shift", "Alt", "p"]));
    assert!(s.error_shown);
    assert_eq!(s.error_message, "Max 3 keys, confirm please");
    assert_eq!(s.hotkey, keys(&["a"]));
}

#[test]
fn saving_installs_the_recording() {
    let mut s = state(&["a"]);
    s.edit_or_save();
    down(&mut s, "Shift");
    down(&mut s, "p");
    assert_eq!(s.shown_hotkey(), "SHIFT + P");
    assert_eq!(s.edit_button_label(), "Save");
    assert_eq!(s.back_button_label(), "Reset");
    assert_eq!(s.edit_or_save(), EditorAction::ReturnToMain);
    assert_eq!(s.hotkey, keys(&["Shift", "p"]));
    assert!(!s.set_hot_key);
    assert_eq!(s.edit_button_label(), "Edit Hotkeys");
    assert_eq!(s.start_prompt(), "Press SHIFT + P to start screening");
}

#[test]
fn saving_an_empty_recording_is_refused() {
    let mut s = state(&["a"]);
    s.edit_or_save();
    assert_eq!(s.edit_or_save(), EditorAction::Stay);
    assert!(!s.set_hot_key);
    assert!(s.error_shown);
    assert_eq!(s.error_line(), "Can't have empty hotkeys");
    assert_eq!(s.hotkey, keys(&["a"]));
}

#[test]
fn reset_drops_the_recording_and_back_returns() {
    let mut s = state(&["a"]);
    s.edit_or_save();
    down(&mut s, "b");
    assert_eq!(s.reset_or_back(), EditorAction::Stay);
    assert!(s.hotkey_new.is_empty());
    assert!(!s.set_hot_key);
    assert_eq!(s.hotkey, keys(&["a"]));
    assert_eq!(s.back_button_label(), "Back");
    assert_eq!(s.reset_or_back(), EditorAction::ReturnToMain);
    assert_eq!(s.error_line(), "");
}

#[test]
fn empty_hotkey_starts_on_any_other_key() {
    let mut s = state(&[]);
    assert_eq!(down(&mut s, "z"), EnterAction::StartScreening);
}
