use azookey_windows::trace::{debug_output, debug_output_of, log_file_name, log_folder};

#[test]
fn the_log_names_the_program_and_the_process() {
    assert_eq!(log_file_name(Some("notepad"), 42), "client-notepad-42.log");
    assert_eq!(log_file_name(None, 0), "client-unknown-0.log");
    assert_eq!(log_folder(None), None);
    assert_eq!(
        log_folder(Some(r"C:\Local")),
        Some(r"C:\Local\Azookey\logs".to_string())
    );
}

#[test]
fn a_debugger_is_given_units_and_a_zero() {
    let expected: Vec<u16> = "azookey: 水\0".encode_utf16().collect();
    assert_eq!(debug_output("水".as_bytes()), expected);
    assert_eq!(debug_output_of("水"), expected);
}
