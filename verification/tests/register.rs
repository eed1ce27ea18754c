use azookey_windows::register::{
    ok_if_not_found, unregister_outcome, CLSIDMgr, CategoryMgr, ProfileMgr, E_FILE_NOT_FOUND,
};

const E_ACCESSDENIED: u32 = 0x80070005;

#[test]
fn not_found_is_tolerated() {
    let result = ok_if_not_found(Err(E_FILE_NOT_FOUND));
    assert!(result.is_ok(), "not-found must be treated as success");
}

#[test]
fn other_errors_still_surface() {
    let result = ok_if_not_found(Err(E_ACCESSDENIED));
    assert_eq!(result.unwrap_err(), E_ACCESSDENIED);
}

#[test]
fn success_passes_through() {
    assert!(ok_if_not_found(Ok(())).is_ok());
}

#[test]
fn the_keys_name_the_text_service() {
    assert_eq!(
        CLSIDMgr::clsid_key(),
        "CLSID\\{ffdefe79-2fc2-11ef-b16b-94e70b2c378c}"
    );
    assert_eq!(
        CLSIDMgr::inproc_key(),
        "CLSID\\{ffdefe79-2fc2-11ef-b16b-94e70b2c378c}\\InProcServer32"
    );
    assert_eq!(CLSIDMgr::unregister(), CLSIDMgr::clsid_key());
}

#[test]
fn the_module_is_written_under_its_key() {
    let values = CLSIDMgr::register("C:\\ime\\azookey.dll");
    assert_eq!(values.len(), 3);
    assert_eq!(values[0].key, CLSIDMgr::clsid_key());
    assert_eq!(values[1].key, CLSIDMgr::inproc_key());
    assert_eq!(values[1].name, "");
    assert_eq!(values[1].value, "C:\\ime\\azookey.dll");
    assert_eq!(values[2].name, "ThreadingModel");
    assert_eq!(values[2].value, "Apartment");
}

#[test]
fn the_profile_names_the_module_for_its_icon() {
    let profile = ProfileMgr::register("C:\\ime\\azookey.dll");
    assert_eq!(profile.service, 0xffdefe79_2fc2_11ef_b16b_94e70b2c378c);
    assert_eq!(profile.profile, 0xffdefe7a_2fc2_11ef_b16b_94e70b2c378c);
    assert_eq!(profile.icon_file.len(), "C:\\ime\\azookey.dll".len() + 1);
    assert_eq!(CategoryMgr::categories().len(), 7);
}

#[test]
fn every_part_that_could_not_be_removed_is_named() {
    assert_eq!(unregister_outcome(None, None, None), Ok(()));
    assert_eq!(
        unregister_outcome(Some("a".to_string()), None, None),
        Err("profile: a".to_string())
    );
    assert_eq!(
        unregister_outcome(Some("a".to_string()), Some("b".to_string()), Some("c".to_string())),
        Err("profile: a; clsid: b; category: c".to_string())
    );
}
