use flowlocal::audio::{AudioEngine, CaptureAction, CaptureCommand};
use flowlocal::hotkey::{
    parse_code, parse_shortcut, HotkeyError, HotkeyManager, KeyCode, ModifierSet,
    RecorderCommand,
};
use flowlocal::settings::HotkeyMode;

fn mods(control: bool, alt: bool, shift: bool, meta: bool) -> ModifierSet {
    ModifierSet { control, alt, shift, meta }
}

#[test]
fn shortcuts_parse() {
    let s = parse_shortcut("ctrl+space").unwrap();
    assert_eq!(s.modifiers, mods(true, false, false, false));
    assert_eq!(s.code, KeyCode::Space);
    let s = parse_shortcut("Alt + Shift + F").unwrap();
    assert_eq!(s.modifiers, mods(false, true, true, false));
    assert_eq!(s.code, KeyCode::KeyF);
    let s = parse_shortcut("CMD+option+control+super+7").unwrap();
    assert_eq!(s.modifiers, mods(true, true, false, true));
    assert_eq!(s.code, KeyCode::Digit7);
    let s = parse_shortcut("f12").unwrap();
    assert!(s.modifiers.is_empty());
    assert_eq!(s.code, KeyCode::F12);
    // The last key named wins.
    assert_eq!(parse_shortcut("a+b").unwrap().code, KeyCode::KeyB);
    assert_eq!(parse_shortcut("ctrl+Return").unwrap().code, KeyCode::Enter);
    assert_eq!(parse_shortcut("win+esc").unwrap().code, KeyCode::Escape);
}

#[test]
fn shortcut_errors() {
    match parse_shortcut("ctrl+shift") {
        Err(HotkeyError::NoKeyCode) => {}
        other => panic!("expected NoKeyCode, got {:?}", other),
    }
    match parse_shortcut("ctrl+Hyper+space") {
        Err(HotkeyError::UnknownKey(k)) => assert_eq!(k, "hyper"),
        other => panic!("expected UnknownKey, got {:?}", other),
    }
    match parse_shortcut("ctrl+") {
        Err(HotkeyError::UnknownKey(k)) => assert_eq!(k, ""),
        other => panic!("expected UnknownKey, got {:?}", other),
    }
    match parse_shortcut("") {
        Err(HotkeyError::UnknownKey(k)) => assert_eq!(k, ""),
        other => panic!("expected UnknownKey, got {:?}", other),
    }
}

#[test]
fn key_codes() {
    assert_eq!(parse_code("pageup").unwrap(), KeyCode::PageUp);
    assert_eq!(parse_code("0").unwrap(), KeyCode::Digit0);
    assert_eq!(parse_code("z").unwrap(), KeyCode::KeyZ);
    assert!(matches!(parse_code("Z"), Err(HotkeyError::UnknownKey(k)) if k == "Z"));
    assert!(matches!(parse_code("f13"), Err(HotkeyError::UnknownKey(_))));
}

fn is_v4_uuid(s: &str) -> bool {
    let b: Vec<char> = s.chars().collect();
    b.len() == 36
        && b.iter().enumerate().all(|(i, c)| {
            if [8, 13, 18, 23].contains(&i) { *c == '-' } else { c.is_ascii_hexdigit() && !c.is_ascii_uppercase() }
        })
        && b[14] == '4'
        && "89ab".contains(b[19])
}

#[test]
fn second_press_stops_recording() {
    let first = HotkeyManager::on_press(false, *uuid::Uuid::new_v4().as_bytes());
    assert!(first.recording);
    let id = match first.command {
        RecorderCommand::Start { session_id } => session_id,
        other => panic!("expected a start, got {:?}", other),
    };
    assert!(is_v4_uuid(&id), "{}", id);
    let second = HotkeyManager::on_press(first.recording, [7; 16]);
    assert!(second.recording);
    assert!(matches!(second.command, RecorderCommand::Stop));
}

#[test]
fn releases_follow_the_mode() {
    let t = HotkeyManager::on_release(HotkeyMode::Toggle, true);
    assert!(t.recording && matches!(t.command, RecorderCommand::Nothing));
    let h = HotkeyManager::on_release(HotkeyMode::Hold, true);
    assert!(h.recording && matches!(h.command, RecorderCommand::Stop));
    let idle = HotkeyManager::on_release(HotkeyMode::Hold, false);
    assert!(!idle.recording && matches!(idle.command, RecorderCommand::Nothing));
    let stop = HotkeyManager::on_stop_request(false);
    assert!(matches!(stop.command, RecorderCommand::Nothing));
    let failed = HotkeyManager::on_start_failed();
    assert!(!failed.recording && matches!(failed.command, RecorderCommand::ReportStartFailure));
    let s = HotkeyManager::on_stop_request(true);
    assert!(s.recording && matches!(s.command, RecorderCommand::Stop));
}

#[test]
fn capture_engine_keeps_one_stream() {
    let mut e = AudioEngine::new();
    assert!(!e.is_capturing());
    let a = e.on_command(CaptureCommand::Start { session_id: "one".into() });
    let sid = match a {
        CaptureAction::OpenStream { session_id } => session_id,
        other => panic!("expected to open, got {:?}", other),
    };
    assert!(e.on_stream_opened(sid, true));
    assert!(e.is_capturing());
    let again = e.on_command(CaptureCommand::Start { session_id: "two".into() });
    assert!(matches!(again, CaptureAction::IgnoreStart));
    match e.on_command(CaptureCommand::Stop) {
        CaptureAction::CloseStream { session_id } => assert_eq!(session_id.as_deref(), Some("one")),
        other => panic!("expected to close, got {:?}", other),
    }
    assert!(!e.is_capturing());
    assert!(matches!(e.on_command(CaptureCommand::Stop), CaptureAction::CloseStream { session_id: None }));
    assert!(matches!(e.on_command(CaptureCommand::ListDevices), CaptureAction::ListDevices));
    let a = e.on_command(CaptureCommand::Start { session_id: "three".into() });
    assert!(matches!(a, CaptureAction::OpenStream { .. }));
    assert!(!e.on_stream_opened("three".into(), false));
    assert!(!e.is_capturing());
}

#[test]
fn session_id_is_built_from_the_given_bytes() {
    let id = |b: [u8; 16]| match HotkeyManager::on_press(false, b).command {
        RecorderCommand::Start { session_id } => session_id,
        other => panic!("expected a start, got {:?}", other),
    };
    assert_eq!(id([0; 16]), "00000000-0000-4000-8000-000000000000");
    assert_eq!(id([0xff; 16]), "ffffffff-ffff-4fff-bfff-ffffffffffff");
    let b = [
        0x12, 0x34, 0x56, 0x78, 0x9a, 0xbc, 0xde, 0xf0, 0x0f, 0xed, 0xcb, 0xa9, 0x87, 0x65, 0x43, 0x21,
    ];
    assert_eq!(id(b), "12345678-9abc-4ef0-8fed-cba987654321");
    assert_eq!(id(b), uuid::Builder::from_random_bytes(b).into_uuid().to_string());
    assert!(is_v4_uuid(&id(b)));
}
