use screen_grabber::capture::{Annotation, CaptureSession};
use screen_grabber::hotkeys::HotkeyState;
use screen_grabber::settings::{output_format_choices, path_label, Delegate};

#[test]
fn current_format_comes_first_once() {
    assert_eq!(output_format_choices(&"jpg".to_string()), vec!["jpg", "png", "jpeg", "bmp", "tiff", "gif"]);
    assert_eq!(output_format_choices(&"webp".to_string()), vec!["webp", "png", "jpg", "jpeg", "bmp", "tiff", "gif"]);
}

#[test]
fn short_paths_are_shown_whole() {
    assert_eq!(path_label("/home/user"), "Current Path: /home/user");
    let forty = "a".repeat(40);
    assert_eq!(path_label(&forty), format!("Current Path: {}", forty));
}

#[test]
fn long_paths_are_cut_after_forty_bytes() {
    let long = format!("{}{}", "b".repeat(40), "tail");
    assert_eq!(path_label(&long), format!("Current Path: {}...", "b".repeat(40)));
    let wide = format!("{}é{}", "c".repeat(38), "zzz");
    assert_eq!(path_label(&wide), format!("Current Path: {}é...", "c".repeat(38)));
}

#[test]
fn closing_a_window_saves_settings() {
    let mut d = Delegate;
    assert!(d.command(true));
    assert!(!d.command(false));
}

#[test]
fn saved_settings_drop_transient_state() {
    let h = HotkeyState {
        hotkey: vec!["a".to_string()],
        hotkey_new: vec!["b".to_string()],
        hotkey_pressed: vec!["a".to_string()],
        set_hot_key: true,
        trigger_ui: true,
        error_shown: true,
        error_message: "x".to_string(),
    };
    let saved = Delegate::hotkeys_to_save(&h);
    assert_eq!(saved.hotkey, vec!["a".to_string()]);
    assert!(saved.hotkey_new.is_empty() && saved.hotkey_pressed.is_empty());
    assert!(!saved.set_hot_key && !saved.trigger_ui && !saved.error_shown);
    assert_eq!(saved.error_message, "Invalid Input: Wrong Hotkey.");

    let mut c: CaptureSession<i32> = CaptureSession::new(9);
    c.image_data_old = vec![1];
    c.positions = vec![(1, 1)];
    c.annotation = Annotation::Arrow;
    c.text_annotation = "hi".to_string();
    let sc = Delegate::capture_to_save(&c);
    assert_eq!(sc.screenshot_number, 9);
    assert!(sc.image_data_old.is_empty() && sc.positions.is_empty() && sc.text_annotation.is_empty());
    assert_eq!(sc.annotation, Annotation::Crop);
    assert!(sc.first_screen);
}
