use azookey_windows::harness::engine::{
    is_running, kill_outcome, kill_outcome_of, preflight, restarted, server_pid,
};
use azookey_windows::harness::guard::{registry_string, registry_string_in, require_vm};
use azookey_windows::harness::host::{new_window, to_ascii_lowercase, windows_of_image, Window};
use azookey_windows::harness::keyboard::{
    backspace, enter, escape, space, type_ascii, virtual_key,
};
use azookey_windows::harness::logs::{log_dir, scan, scan_text};
use azookey_windows::harness::overlay::{candidates_visible, is_candidate_window};
use azookey_windows::harness::profile::DefaultProfile;
use azookey_windows::harness::scenarios::{
    after_long_input, all, convert_reading, custom_host_path, expected_in, long_input, Scenario,
    READING,
};
use azookey_windows::harness::stage::{stage, Stage};
use azookey_windows::harness::text::{contains, lines, trim};
use azookey_windows::harness::uia::{text_of, value_by_automation_id, Control};
use azookey_windows::strings::chars_of;

fn lines_of(text: &str) -> Vec<String> {
    lines(&chars_of(text))
        .into_iter()
        .map(|line| line.into_iter().collect())
        .collect()
}

#[test]
fn lines_end_where_the_standard_library_ends_them() {
    for text in ["", "a", "a\n", "a\r\nb", "a\rb\n\n", "\n\r\n", "a\r", "\r\n", "\r\r\nx"] {
        let expected: Vec<String> = text.lines().map(|line| line.to_string()).collect();
        assert_eq!(lines_of(text), expected, "{text:?}");
    }
}

#[test]
fn whitespace_is_what_the_standard_library_takes_for_it() {
    for text in [
        "",
        "  ",
        " a b ",
        "\u{3000}水\u{a0}",
        "\u{200b}a\u{200b}",
        "\t\u{85}x\u{2028}",
        "\u{1680}\u{205f}\u{202f}y\u{2000}\u{200a}",
    ] {
        assert_eq!(trim(text), text.trim(), "{text:?}");
    }
}

#[test]
fn a_part_is_found_wherever_it_stands() {
    for (text, part) in [
        ("", ""),
        ("a", ""),
        ("", "a"),
        ("aab", "ab"),
        ("1234567890水", "水"),
        ("みず", "水"),
        ("abab", "bab"),
        ("ab", "abc"),
    ] {
        assert_eq!(contains(text, part), text.contains(part), "{text:?} {part:?}");
    }
}

const LISTING: &str = "\r\nHKEY_LOCAL_MACHINE\\HARDWARE\\DESCRIPTION\\System\\BIOS\r\n    \
                       SystemProductName    REG_SZ    Virtual Machine\r\n\r\n";

#[test]
fn a_value_is_read_from_a_registry_listing() {
    assert_eq!(
        registry_string_in(LISTING, "SystemProductName"),
        Some("Virtual Machine".to_string())
    );
    assert_eq!(registry_string_in(LISTING, "SystemManufacturer"), None);
    assert_eq!(
        registry_string(LISTING.as_bytes(), "SystemProductName"),
        Some("Virtual Machine".to_string())
    );
    // only the first line with the name counts
    assert_eq!(registry_string_in("x\nx REG_SZ y", "x"), None);
    assert_eq!(
        registry_string_in("x REG_SZ y REG_SZ z", "x"),
        Some("y".to_string())
    );
}

#[test]
fn only_a_guest_may_be_driven() {
    let text = |s: &str| Some(s.to_string());
    assert_eq!(
        require_vm(text("Microsoft Corporation"), text("Virtual Machine")),
        Ok("guest: Microsoft Corporation / Virtual Machine".to_string())
    );
    for (manufacturer, model) in [
        (text("Microsoft Corporation"), text("Surface")),
        (text("ASUS"), text("Virtual Machine")),
        (text("Micro"), text("Virtual Machine")),
        (None, None),
    ] {
        assert!(require_vm(manufacturer, model).is_err());
    }
    let reason = require_vm(text("ASUS"), None).unwrap_err();
    assert!(
        reason.starts_with("この機械は Hyper-V ゲストではありません (ASUS / )。\n"),
        "{reason}"
    );
}

#[test]
fn a_log_is_searched_for_defects_only() {
    let log = "launcher: server crashed, restarting\r\n  thread 'main' panicked at src/x.rs:1 \n\
               ok\nActivate failed: 0x80004005";
    let hits = scan_text("server.log", log);
    let found: Vec<(&str, &str)> = hits
        .iter()
        .map(|hit| (hit.file.as_str(), hit.line.as_str()))
        .collect();
    assert_eq!(
        found,
        vec![
            ("server.log", "thread 'main' panicked at src/x.rs:1"),
            ("server.log", "Activate failed: 0x80004005"),
        ]
    );
    assert!(scan_text("server.log", "restarting").is_empty());
}

#[test]
fn a_log_that_breaks_off_within_a_character_is_still_searched() {
    let mut bytes = "panicked at 水".as_bytes().to_vec();
    bytes.pop();
    let hits = scan("ui.log", &bytes);
    assert_eq!(hits.len(), 1);
    assert_eq!(hits[0].line, "panicked at \u{fffd}");
}

#[test]
fn the_logs_are_below_where_applications_store() {
    assert_eq!(log_dir(None), None);
    assert_eq!(
        log_dir(Some(r"C:\Users\a\AppData\Local")),
        Some(r"C:\Users\a\AppData\Local\Azookey\logs".to_string())
    );
}

#[test]
fn letters_digits_and_the_space_bar_have_keys() {
    assert_eq!(virtual_key('a'), Some(0x41));
    assert_eq!(virtual_key('z'), Some(0x5A));
    assert_eq!(virtual_key('Z'), Some(0x5A));
    assert_eq!(virtual_key('0'), Some(0x30));
    assert_eq!(virtual_key(' '), Some(space()));
    assert_eq!(virtual_key('-'), None);
    assert_eq!(virtual_key('水'), None);
    assert_eq!((enter(), escape(), backspace()), (0x0D, 0x1B, 0x08));
}

#[test]
fn typing_stops_at_a_character_without_a_key() {
    let typing = type_ascii("mizu");
    assert_eq!(typing.keys, vec![0x4D, 0x49, 0x5A, 0x55]);
    assert_eq!(typing.refused, None);
    let typing = type_ascii("a-b");
    assert_eq!(typing.keys, vec![0x41]);
    assert_eq!(typing.refused, Some('-'));
}

#[test]
fn a_reading_is_typed_converted_and_accepted() {
    let typing = convert_reading(READING);
    assert_eq!(typing.keys, vec![0x4D, 0x49, 0x5A, 0x55, 0x20, 0x0D]);
    let typing = convert_reading("a-");
    assert_eq!(typing.keys, vec![0x41]);
    assert_eq!(typing.refused, Some('-'));
    let keys = long_input();
    assert_eq!(keys.len(), 132);
    assert_eq!(&keys[..4], &[0x4B, 0x41, 0x4B, 0x41]);
    assert_eq!(&keys[130..], &[0x20, 0x0D]);
}

#[test]
fn a_run_needs_one_launcher_and_one_server() {
    assert_eq!(
        preflight(&[4], &[8]),
        Ok("engine ok: launcher [4], server [8]".to_string())
    );
    assert!(preflight(&[], &[8])
        .unwrap_err()
        .starts_with("launcher.exe が動いていません。"));
    assert!(preflight(&[4, 5], &[8])
        .unwrap_err()
        .starts_with("launcher.exe が 2 個動いています (pids [4, 5])。"));
    assert_eq!(
        preflight(&[4], &[8, 9]),
        Err("azookey-server.exe が 2 個動いています (pids [8, 9])。同上。".to_string())
    );
    assert!(preflight(&[4], &[])
        .unwrap_err()
        .starts_with("azookey-server.exe が動いていません。"));
}

#[test]
fn a_restart_is_a_new_process() {
    assert_eq!(restarted(8, None), None);
    assert_eq!(restarted(8, Some(8)), None);
    assert_eq!(restarted(8, Some(9)), Some(9));
    assert_eq!(server_pid(&[]), None);
    assert_eq!(server_pid(&[8, 9]), Some(8));
    assert!(is_running(&[8]) && !is_running(&[]));
}

#[test]
fn a_process_that_could_not_be_ended_is_reported() {
    assert_eq!(kill_outcome(8, true, b"ignored"), Ok(()));
    assert_eq!(
        kill_outcome(8, false, b" ERROR: not found.\r\n"),
        Err("taskkill /PID 8 failed: ERROR: not found.".to_string())
    );
    assert_eq!(
        kill_outcome_of(8, false, "x"),
        Err("taskkill /PID 8 failed: x".to_string())
    );
}

#[test]
fn the_overlay_is_told_by_its_owner() {
    assert!(is_candidate_window(Some("ui.exe")));
    assert!(!is_candidate_window(Some("notepad.exe")));
    assert!(!is_candidate_window(None));
    assert!(candidates_visible(Some(true)));
    assert!(!candidates_visible(Some(false)));
    assert!(!candidates_visible(None));
}

#[test]
fn the_stages_are_announced() {
    assert_eq!(stage(Stage::Guard), "== guard    (VM の中か) ==");
    assert_eq!(stage(Stage::Profile), "== profile  (既定 IME の切替) ==");
}

fn window(handle: isize, visible: bool, title: &str, image: Option<&str>) -> Window {
    Window {
        handle,
        visible,
        title: title.to_string(),
        image: image.map(|s| s.to_string()),
    }
}

#[test]
fn a_host_is_found_by_its_new_window() {
    assert_eq!(to_ascii_lowercase("NotePad.EXE Ä"), "notepad.exe Ä");
    let windows = [
        window(1, true, "Untitled", Some("notepad.exe")),
        window(2, false, "hidden", Some("notepad.exe")),
        window(3, true, "", Some("notepad.exe")),
        window(4, true, "other", Some("explorer.exe")),
        window(5, true, "unknown", None),
        window(6, true, "new", Some("notepad.exe")),
    ];
    let found = windows_of_image(&windows, "Notepad.exe");
    assert_eq!(found, vec![1, 6]);
    assert_eq!(new_window(&[1], &found), Some(6));
    assert_eq!(new_window(&[1, 6], &found), None);
    assert_eq!(new_window(&[], &found), Some(1));
}

fn control(id: Option<&str>, value: Option<&str>, document: Option<&str>) -> Control {
    Control {
        id: id.map(|s| s.to_string()),
        value: value.map(|s| s.to_string()),
        document: document.map(|s| s.to_string()),
    }
}

#[test]
fn the_text_of_a_window_is_the_first_that_is_not_blank() {
    let controls = [
        control(Some("1"), None, None),
        control(Some("2"), Some(" \r\n"), Some("hidden behind a value")),
        control(Some("3"), None, Some("水")),
        control(Some("4"), Some("later"), None),
    ];
    assert_eq!(text_of(&controls), Some("水".to_string()));
    assert_eq!(text_of(&controls[..2]), None);
    assert_eq!(
        value_by_automation_id(&controls, "4"),
        Some("later".to_string())
    );
    assert_eq!(value_by_automation_id(&controls, "3"), Some(String::new()));
    assert_eq!(value_by_automation_id(&controls, "5"), None);
}

#[test]
fn the_default_is_put_back() {
    let profile = DefaultProfile {
        previous: Some((1, 2)),
    };
    assert!(profile.has_previous());
    assert_eq!(profile.cycle(), vec![(1, 2), DefaultProfile::azookey()]);
    assert_eq!(profile.restored(), Some((1, 2)));
    let alone = DefaultProfile { previous: None };
    assert!(!alone.has_previous());
    assert!(alone.cycle().is_empty());
    assert_eq!(alone.restored(), None);
}

#[test]
fn the_scenarios_are_run_in_order() {
    let names: Vec<&str> = all().into_iter().map(Scenario::name).collect();
    assert_eq!(
        names,
        vec![
            "basic_conversion",
            "long_input_survives",
            "second_host_converts"
        ]
    );
}

#[test]
fn a_host_may_hold_more_than_what_was_typed() {
    let text = Some("1234567890水".to_string());
    assert_eq!(expected_in(text.clone()), text);
    assert_eq!(expected_in(Some("みず".to_string())), None);
    assert_eq!(expected_in(None), None);
    assert!(after_long_input(true).is_ok());
    assert_eq!(
        after_long_input(false),
        Err("azookey-server.exe が長文入力後に消えました（server クラッシュ）".to_string())
    );
    assert_eq!(
        custom_host_path(r"C:\build\azookey-e2e.exe"),
        Some(r"C:\build\azookey-e2e-host.exe".to_string())
    );
    assert_eq!(
        custom_host_path("azookey-e2e.exe"),
        Some("azookey-e2e-host.exe".to_string())
    );
    assert_eq!(
        custom_host_path(r"\azookey-e2e.exe"),
        Some(r"\azookey-e2e-host.exe".to_string())
    );
    assert_eq!(custom_host_path(r"C:\"), None);
}
