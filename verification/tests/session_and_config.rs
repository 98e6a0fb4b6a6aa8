use screen_grabber::config::{Config, Filename, Status};
use screen_grabber::editor::DragEvent;
use screen_grabber::geometry::Pos;
use screen_grabber::keybinds::{Binding, HotKeyAction, KeyCombo, resolve_hotkey};
use screen_grabber::pages::PageType;
use screen_grabber::raster::RawImage;
use screen_grabber::save_destination::{extension_of, with_png_extension};
use screen_grabber::session::{ScreenGrabber, UiRequest};
use screen_grabber::sync::{MasterSignal, SlaveSignal};

fn binding(id: u32, action: HotKeyAction) -> Binding {
    Binding {
        id,
        key_bind: String::new(),
        shortcut: Some(KeyCombo { ctrl: false, alt: true, shift: false, key: 'X' }),
        action,
    }
}

#[test]
fn capture_latch_allows_one_in_flight() {
    let mut app = ScreenGrabber::default();
    let first = app.capture();
    match first {
        Some(MasterSignal::StartCaptureAfter(d)) => assert_eq!(d, 300),
        _ => panic!("the first capture request must be sent"),
    }
    assert!(app.is_capturing);
    // A second request while the latch is set is dropped client-side.
    assert!(app.capture().is_none());
}

#[test]
fn capture_done_resets_editor_and_clears_latch() {
    let mut app = ScreenGrabber::default();
    app.capture();
    app.editor.annotations.push(screen_grabber::annotation::Annotation::crop(Pos {
        x: 0,
        y: 0,
    }));
    let img = RawImage { width: 64, height: 48, pixels: vec![0u8; 64 * 48 * 4] };
    let back = app.handle_save_signal(SlaveSignal::CaptureDone(img));
    assert!(back.is_some());
    assert!(!app.is_capturing);
    assert_eq!(app.current_page, PageType::Capture);
    assert!(app.has_captured_image());
    assert_eq!(app.get_original_size(), (64, 48));
    assert!(app.editor.annotations.is_empty());
    assert_eq!(app.editor.crop_rect.max, Pos { x: 64, y: 48 });
}

#[test]
fn aborted_and_save_done_clear_latches() {
    let mut app = ScreenGrabber::default();
    app.is_saving = true;
    app.is_capturing = true;
    app.handle_save_signal(SlaveSignal::Aborted);
    assert!(!app.is_saving);
    assert!(!app.is_capturing);
    app.is_saving = true;
    app.handle_save_signal(SlaveSignal::SaveDone);
    assert!(!app.is_saving);
}

#[test]
fn save_requests_need_a_captured_image() {
    let mut app = ScreenGrabber::default();
    assert!(app.save_clipboard().is_none());
    assert!(app.save_default("20240101_000000").is_none());
    assert!(app.save_as(Some(String::from("x.png"))).is_none());
    assert!(!app.is_saving);
}

#[test]
fn save_default_builds_timestamped_png_path() {
    let mut app = ScreenGrabber::default();
    app.config.default_path = String::from("/tmp/shots");
    let img = RawImage { width: 32, height: 32, pixels: vec![0u8; 32 * 32 * 4] };
    app.handle_save_signal(SlaveSignal::CaptureDone(img));
    let sig = app.save_default("20240101_120000").expect("a save must be requested");
    assert!(app.is_saving);
    match sig {
        MasterSignal::SaveImage(data) => {
            match data.path {
                screen_grabber::save_destination::SaveDestination::RealPath(p) => {
                    assert_eq!(p, "/tmp/shots/20240101_120000.png");
                },
                _ => panic!("a default save goes to a file"),
            }
            assert_eq!(data.canvas_size, (32, 32));
            assert_eq!(data.crop_area.1, Pos { x: 32, y: 32 });
        },
        _ => panic!("expected a save request"),
    }
}

#[test]
fn save_snapshot_is_owned_and_content_equal() {
    let mut app = ScreenGrabber::default();
    let img = RawImage { width: 64, height: 64, pixels: vec![0u8; 64 * 64 * 4] };
    app.handle_save_signal(SlaveSignal::CaptureDone(img));
    app.editor.manage_segment(DragEvent::Started(Pos { x: 5, y: 5 }));
    app.editor.manage_segment(DragEvent::Released(Pos { x: 25, y: 25 }));
    let sig = app.save_clipboard().expect("a save must be requested");
    let data = match sig {
        MasterSignal::SaveImage(d) => d,
        _ => panic!("expected a save request"),
    };
    assert_eq!(data.annotations.len(), 1);
    assert!(data.annotations[0].same_as(&app.editor.annotations[0]));
    // Later edits cannot race the snapshot.
    app.editor.annotations.clear();
    assert_eq!(data.annotations.len(), 1);
}

#[test]
fn window_minimizes_during_capture_only() {
    let mut app = ScreenGrabber::default();
    assert!(app.manage_window_status().is_none());
    app.capture();
    assert_eq!(app.manage_window_status(), Some(true));
    assert!(app.is_minimized);
    assert!(app.manage_window_status().is_none());
    app.handle_save_signal(SlaveSignal::Aborted);
    assert_eq!(app.manage_window_status(), Some(false));
    assert!(!app.is_minimized);
}

#[test]
fn hotkey_capture_press_requests_capture() {
    let mut app = ScreenGrabber::default();
    let sig = app.handle_hotkey_signal(SlaveSignal::KeyPressed(HotKeyAction::Capture));
    assert!(matches!(sig, Some(MasterSignal::StartCaptureAfter(_))));
    assert!(app.is_capturing);
    // Unresolved presses do nothing.
    let none = app.handle_hotkey_signal(SlaveSignal::KeyPressed(HotKeyAction::Nothing));
    assert!(none.is_none());
}

#[test]
fn in_app_actions_navigate_and_request_dialogs() {
    let mut app = ScreenGrabber::default();
    // Without a capture, the editor shortcut does nothing.
    app.apply_in_app_action(HotKeyAction::Editor, "ts");
    assert_eq!(app.current_page, PageType::Launcher);
    app.apply_in_app_action(HotKeyAction::Settings, "ts");
    assert_eq!(app.current_page, PageType::Settings);
    let img = RawImage { width: 16, height: 16, pixels: vec![0u8; 16 * 16 * 4] };
    app.handle_save_signal(SlaveSignal::CaptureDone(img));
    app.current_page = PageType::Launcher;
    app.apply_in_app_action(HotKeyAction::Editor, "ts");
    assert_eq!(app.current_page, PageType::Capture);
    let req = app.apply_in_app_action(HotKeyAction::Save, "ts");
    assert!(matches!(req, Some(UiRequest::OpenSaveDialog)));
}

#[test]
fn reset_action_marks_config_on_settings_page() {
    let mut app = ScreenGrabber::default();
    app.current_page = PageType::Settings;
    // The previous configuration equals the default: no reset needed.
    app.apply_in_app_action(HotKeyAction::Reset, "ts");
    assert_eq!(app.config.status, Status::Normal);
    // A diverged previous configuration marks the reset.
    app.prev_config.is_dark = false;
    app.apply_in_app_action(HotKeyAction::Reset, "ts");
    assert_eq!(app.config.status, Status::ToReset);
}

#[test]
fn filename_pattern_renders_with_and_without_timestamp() {
    let f = Filename::default();
    assert_eq!(f.to_name("20240101_120000"), "20240101_120000");
    let named = Filename {
        timestamp: false,
        prefix: String::from("shot-"),
        postfix: String::from("-final"),
    };
    assert_eq!(named.to_name("20240101_120000"), "shot--final");
    let both = Filename {
        timestamp: true,
        prefix: String::from("shot-"),
        postfix: String::from("-x"),
    };
    assert_eq!(both.to_name("T"), "shot-T-x");
    // An empty pattern falls back to the timestamp.
    let empty = Filename { timestamp: false, prefix: String::new(), postfix: String::new() };
    assert_eq!(empty.to_name("T"), "T");
}

#[test]
fn path_extension_parsing_and_replacement() {
    assert_eq!(extension_of("a/b/shot.png").unwrap(), "png");
    assert_eq!(extension_of("shot.tar.gz").unwrap(), "gz");
    assert!(extension_of("a.dir/noext").is_none());
    assert!(extension_of("").is_none());
    // A dot that opens the final component names no extension.
    assert!(extension_of(".png").is_none());
    assert!(extension_of("a/.hidden").is_none());
    assert_eq!(extension_of("a/.conf.png").unwrap(), "png");
    assert_eq!(with_png_extension("shot.gif"), "shot.png");
    assert_eq!(with_png_extension("a/b/noext"), "a/b/noext.png");
    assert_eq!(with_png_extension("dir.v2/capture.webp"), "dir.v2/capture.png");
    assert_eq!(with_png_extension("dir/.gif"), "dir/.gif.png");
}

#[test]
fn hotkey_resolution_takes_first_matching_id() {
    let bindings = vec![
        binding(7, HotKeyAction::Capture),
        binding(9, HotKeyAction::Settings),
        binding(9, HotKeyAction::Save),
    ];
    assert!(matches!(resolve_hotkey(&bindings, 7), HotKeyAction::Capture));
    assert!(matches!(resolve_hotkey(&bindings, 9), HotKeyAction::Settings));
    assert!(matches!(resolve_hotkey(&bindings, 1), HotKeyAction::Nothing));
}

#[test]
fn action_comparison_lets_save_default_pass_for_save() {
    assert!(HotKeyAction::SaveDefault == HotKeyAction::Save);
    assert!(!(HotKeyAction::Save == HotKeyAction::SaveDefault));
    assert!(HotKeyAction::Capture == HotKeyAction::Capture);
    assert!(!(HotKeyAction::Capture == HotKeyAction::Settings));
}

#[test]
fn config_comparison_ignores_status_and_compares_shortcuts() {
    let a = Config::default();
    let mut b = Config::default();
    b.status = Status::ToSave;
    assert!(a == b);
    b.is_dark = false;
    assert!(!(a == b));
    let mut c = Config::default();
    c.in_app_hotkeys[0].shortcut = Some(KeyCombo { ctrl: true, alt: false, shift: false, key: 'Q' });
    assert!(!(a == c));
    // The binding comparison looks at the shortcut only.
    let mut d = Config::default();
    d.in_app_hotkeys[0].action = HotKeyAction::Nothing;
    assert!(a == d);
}

#[test]
fn default_config_holds_capture_hotkey_and_in_app_set() {
    let c = Config::default();
    assert!(c.is_dark);
    assert!(!c.start_minimized);
    assert_eq!(c.hotkeys.len(), 1);
    assert_eq!(c.hotkeys[0].key_bind, "Alt+C");
    assert!(matches!(c.hotkeys[0].action, HotKeyAction::Capture));
    assert_eq!(c.in_app_hotkeys.len(), 6);
    assert_eq!(c.in_app_hotkeys[1].key_bind, "Alt+Shift+C");
    assert!(matches!(c.in_app_hotkeys[3].action, HotKeyAction::SaveDefault));
    assert_eq!(c.default_filename.timestamp, true);
}

#[test]
fn action_labels_match_display_names() {
    assert_eq!(HotKeyAction::SaveDefault.display_name(), "Save Default");
    assert_eq!(HotKeyAction::Nothing.display_name(), "None");
    assert_eq!(HotKeyAction::Capture.display_name(), "Capture");
}
