use azookey_windows::engine::candidate_ui::{
    command_candidate_window, updated_flags, WindowCommand, CANDIDATES_CHANGED, SELECTION_CHANGED,
};
use azookey_windows::engine::engine_health::{get, EngineHealth, Verdict};
use azookey_windows::engine::input_mode::InputMode;
use azookey_windows::engine::ipc_service::{
    candidates_or_missing, converted, engine_exec, exec, removal_count, retry_idempotent, span_text,
    Candidates, ComposingText, Reply, Suggestion, CONVERSION_TIMEOUT, HOUSEKEEPING_TIMEOUT,
    WINDOW_TIMEOUT,
};
use azookey_windows::failure::{is_server_unavailable, Cause, Failure};
use azookey_windows::globals::{
    path_step, DllModule, PathStep, E_INVALIDARG, GUID_DISPLAY_ATTRIBUTE, GUID_TEXT_SERVICE,
    TEXTSERVICE_LANGBARITEMSINK_COOKIE,
};
use azookey_windows::tsf::compartment::{concerns_mode, decode, encode, CONVERSION_KANA};
use azookey_windows::tsf::display_attribute::{
    get_display_attribute_info, EnumDisplayAttributeInfo, NextItems,
};
use azookey_windows::tsf::edit_session::{classify_text_ext, PositionUpdate, TS_E_NOLAYOUT};
use azookey_windows::tsf::factory::{
    class_object, create_instance, HandedOut, CLASS_E_CLASSNOTAVAILABLE, CLASS_E_NOAGGREGATION,
    E_NOINTERFACE, IID_CLASS_FACTORY, IID_TEXT_INPUT_PROCESSOR, IID_TEXT_INPUT_PROCESSOR_EX,
    IID_UNKNOWN,
};
use azookey_windows::tsf::language_bar::{
    advise_sink, get_info, get_status, get_tooltip_string, langbar_icon_id, unadvise_sink,
    CONNECT_E_CANNOTCONNECT, GUID_LBI_INPUTMODE, IID_LANGBARITEMSINK,
};
use azookey_windows::tsf::surrounded_text::{
    context_text, is_transitory, to_parent_context_if_exists, to_parent_document_if_exists,
};
use azookey_windows::tsf::ui_element::forces_candidate_window;

const E_FAIL: u32 = 0x80004005;
const IID_LANGBARITEM: u128 = 0x73540d69_edeb_4ee9_96c9_23aa30b25916;

#[test]
fn kana_and_latin_survive_a_compartment_round_trip() {
    for mode in [InputMode::Kana, InputMode::Latin] {
        let (open, conversion) = encode(mode);
        assert_eq!(decode(open, Some(conversion)), mode);
    }
}

#[test]
fn a_closed_ime_decodes_to_latin() {
    assert_eq!(decode(0, Some(CONVERSION_KANA)), InputMode::Latin);
    assert_eq!(decode(0, None), InputMode::Latin);
}

#[test]
fn an_open_ime_with_no_conversion_mode_decodes_to_kana() {
    assert_eq!(decode(1, None), InputMode::Kana);
}

#[test]
fn an_explicit_alphanumeric_mode_beats_an_open_ime() {
    assert_eq!(decode(1, Some(0)), InputMode::Latin);
}

#[test]
fn an_external_katakana_mode_degrades_to_kana() {
    // native and katakana
    let katakana: i32 = 1 | 2;
    assert_eq!(decode(1, Some(katakana)), InputMode::Kana);
}

#[test]
fn only_two_compartments_concern_the_mode() {
    assert!(concerns_mode(0x58273aad_01bb_4164_95c6_755ba0b5162d));
    assert!(concerns_mode(0xccf05dd8_4a87_11d7_a6e2_00065b84435c));
    assert!(!concerns_mode(0x71a5b253_1951_466b_9fbc_9c8808fa84f2));
}

#[test]
fn next_fills_every_slot() {
    let mut e = EnumDisplayAttributeInfo::new(3);
    assert_eq!(e.next(3, true), NextItems::All { from: 0, fetched: 3 });
}

#[test]
fn next_partial_fill_reports_fetched() {
    let mut e = EnumDisplayAttributeInfo::new(1);
    assert_eq!(
        e.next(3, true),
        NextItems::Fewer {
            from: 0,
            fetched: 1
        }
    );
}

#[test]
fn next_is_exhausted_after_all_items() {
    let mut e = EnumDisplayAttributeInfo::new(1);
    assert_eq!(e.next(1, true), NextItems::All { from: 0, fetched: 1 });
    assert_eq!(
        e.next(1, true),
        NextItems::Fewer {
            from: 1,
            fetched: 0
        }
    );
    e.reset();
    assert_eq!(e.next(1, true), NextItems::All { from: 0, fetched: 1 });
}

#[test]
fn skip_past_the_end_is_clamped() {
    let mut e = EnumDisplayAttributeInfo::new(1);
    e.skip(100);
    assert_eq!(
        e.next(1, true),
        NextItems::Fewer {
            from: 1,
            fetched: 0
        }
    );
}

#[test]
fn items_need_somewhere_to_go() {
    let mut e = EnumDisplayAttributeInfo::new(2);
    assert_eq!(e.next(1, false), NextItems::NoBuffer);
    assert_eq!(e.next(0, false), NextItems::All { from: 0, fetched: 0 });
    assert_eq!(get_display_attribute_info(GUID_DISPLAY_ATTRIBUTE), Some(0));
    assert_eq!(get_display_attribute_info(1), None);
}

#[test]
fn create_instance_supports_iunknown() {
    assert_eq!(
        create_instance(false, IID_UNKNOWN),
        Ok(HandedOut::Unknown),
        "CreateInstance must support IID_IUnknown"
    );
}

#[test]
fn create_instance_supports_the_tsf_interfaces() {
    assert_eq!(
        create_instance(false, IID_TEXT_INPUT_PROCESSOR),
        Ok(HandedOut::TextInputProcessor)
    );
    assert_eq!(
        create_instance(false, IID_TEXT_INPUT_PROCESSOR_EX),
        Ok(HandedOut::TextInputProcessorEx)
    );
}

#[test]
fn an_unsupported_interface_is_refused_with_e_nointerface() {
    assert_eq!(create_instance(false, IID_LANGBARITEM), Err(E_NOINTERFACE));
}

#[test]
fn aggregation_is_refused_with_class_e_noaggregation() {
    assert_eq!(
        create_instance(true, IID_UNKNOWN),
        Err(CLASS_E_NOAGGREGATION)
    );
}

#[test]
fn the_class_is_handed_out_by_its_own_number_only() {
    let service = Some(GUID_TEXT_SERVICE);
    assert_eq!(
        class_object(service, Some(IID_CLASS_FACTORY), true),
        Ok(HandedOut::ClassFactory)
    );
    assert_eq!(
        class_object(service, Some(IID_UNKNOWN), true),
        Ok(HandedOut::Unknown)
    );
    assert_eq!(
        class_object(service, Some(IID_TEXT_INPUT_PROCESSOR), true),
        Err(E_NOINTERFACE)
    );
    assert_eq!(
        class_object(Some(1), Some(IID_CLASS_FACTORY), true),
        Err(CLASS_E_CLASSNOTAVAILABLE)
    );
    assert_eq!(
        class_object(service, Some(IID_CLASS_FACTORY), false),
        Err(E_INVALIDARG)
    );
    assert_eq!(class_object(None, None, true), Err(E_INVALIDARG));
}

#[test]
fn the_langbar_sink_iid_is_accepted() {
    assert_eq!(
        advise_sink(Some(IID_LANGBARITEMSINK), true),
        Ok(TEXTSERVICE_LANGBARITEMSINK_COOKIE)
    );
}

#[test]
fn another_sinks_iid_is_refused() {
    assert_eq!(advise_sink(Some(IID_LANGBARITEM), true), Err(E_INVALIDARG));
}

#[test]
fn a_null_iid_is_refused_instead_of_dereferenced() {
    assert_eq!(advise_sink(None, true), Err(E_INVALIDARG));
}

#[test]
fn a_missing_sink_object_is_refused() {
    assert_eq!(
        advise_sink(Some(IID_LANGBARITEMSINK), false),
        Err(E_INVALIDARG)
    );
}

#[test]
fn the_cookie_we_handed_out_can_be_unadvised() {
    assert_eq!(unadvise_sink(TEXTSERVICE_LANGBARITEMSINK_COOKIE), Ok(()));
}

#[test]
fn an_unknown_cookie_cannot_be_unadvised() {
    assert_eq!(
        unadvise_sink(TEXTSERVICE_LANGBARITEMSINK_COOKIE + 1),
        Err(CONNECT_E_CANNOTCONNECT)
    );
}

#[test]
fn the_icon_matches_the_mode_and_contrasts_with_the_theme() {
    assert_eq!(langbar_icon_id(InputMode::Kana, true), 102);
    assert_eq!(langbar_icon_id(InputMode::Latin, true), 103);
    assert_eq!(langbar_icon_id(InputMode::Kana, false), 104);
    assert_eq!(langbar_icon_id(InputMode::Latin, false), 105);
}

#[test]
fn every_mode_and_theme_pair_has_its_own_icon() {
    let ids = [
        langbar_icon_id(InputMode::Kana, true),
        langbar_icon_id(InputMode::Latin, true),
        langbar_icon_id(InputMode::Kana, false),
        langbar_icon_id(InputMode::Latin, false),
    ];

    let mut sorted = ids.to_vec();
    sorted.sort_unstable();
    sorted.dedup();
    assert_eq!(sorted.len(), ids.len(), "duplicate icon id in {ids:?}");
    // 101 is the application icon, not a mode icon
    assert!(ids.iter().all(|id| *id > 101));
}

#[test]
fn get_info_fills_the_hosts_struct_and_rejects_a_null_one() {
    let info = get_info(true).unwrap();
    assert_eq!(info.item, GUID_LBI_INPUTMODE);
    assert_eq!(info.service, GUID_TEXT_SERVICE);

    assert_eq!(get_info(false).unwrap_err(), E_INVALIDARG);
}

#[test]
fn the_item_reports_no_status_and_no_tooltip() {
    assert_eq!(get_status(), 0);
    assert!(get_tooltip_string(get(&Verdict::new())).is_empty());
}

#[test]
fn the_item_says_where_the_engine_is_out_of_reach() {
    let text = get_tooltip_string(EngineHealth::Unreachable);
    assert!(text.starts_with("azooKey: ") && text.contains("launcher.exe"));
    assert_eq!(get_tooltip_string(EngineHealth::Reachable), "");
}

#[test]
fn a_pending_layout_is_not_an_error() {
    let outcome = classify_text_ext(Err(TS_E_NOLAYOUT), false)
        .expect("NOLAYOUT is a transient state, not a failure");
    assert_eq!(outcome, PositionUpdate::PendingLayout);
}

#[test]
fn other_hresults_still_propagate_as_errors() {
    let outcome = classify_text_ext(Err(E_FAIL), false);
    assert!(
        outcome.is_err(),
        "a genuine GetTextExt failure must not be mistaken for a pending layout"
    );
}

#[test]
fn a_clipped_rect_is_not_forwarded() {
    let outcome = classify_text_ext(Ok(()), true).unwrap();
    assert_eq!(
        outcome,
        PositionUpdate::Clipped,
        "a clipped rect must not reach set_window_position"
    );
}

#[test]
fn an_unclipped_measurement_is_sent() {
    let outcome = classify_text_ext(Ok(()), false).unwrap();
    assert_eq!(outcome, PositionUpdate::Sent);
}

#[test]
fn the_deadlines_are_ordered_by_how_much_work_the_call_does() {
    assert!(
        WINDOW_TIMEOUT < HOUSEKEEPING_TIMEOUT,
        "a cosmetic window call must give up before an engine call does"
    );
    assert!(
        HOUSEKEEPING_TIMEOUT < CONVERSION_TIMEOUT,
        "state-shuffling must give up before conversion, which may run \
         neural inference"
    );
    assert_eq!(
        CONVERSION_TIMEOUT, 2_000,
        "the conversion budget must not shrink: honest conversions on slow \
         hardware take seconds, and failing them would be a worse bug than \
         the stall this deadline guards against"
    );
}

fn notes(failure: &Failure) -> Vec<String> {
    failure
        .causes
        .iter()
        .map(|cause| match cause {
            Cause::Unavailable(tag) => tag.message().to_string(),
            Cause::Message(text) => text.clone(),
        })
        .collect()
}

#[test]
fn a_call_comes_to_what_came_of_it() {
    assert_eq!(exec(500, Reply::Answered(7)).unwrap(), 7);

    let timed_out = exec::<()>(500, Reply::TimedOut).unwrap_err();
    assert!(is_server_unavailable(&timed_out));
    assert_eq!(
        notes(&timed_out),
        vec![
            "azookey server is unavailable",
            "IPC request timed out after 500ms"
        ]
    );

    let lost = exec::<()>(500, Reply::Lost("broken pipe".to_string())).unwrap_err();
    assert!(is_server_unavailable(&lost));
    assert_eq!(notes(&lost)[1], "IPC transport error: broken pipe");

    let rejected = exec::<()>(500, Reply::Rejected("InvalidArgument".to_string())).unwrap_err();
    assert!(!is_server_unavailable(&rejected));
    assert_eq!(notes(&rejected), vec!["InvalidArgument"]);
}

#[test]
fn a_call_says_whether_the_engine_is_there() {
    let mut verdict = Verdict::new();
    let (result, changed) = engine_exec::<()>(&mut verdict, 2_000, Reply::TimedOut);
    assert!(result.is_err() && changed);
    assert_eq!(get(&verdict), EngineHealth::Unreachable);
    let (result, changed) =
        engine_exec::<()>(&mut verdict, 2_000, Reply::Rejected("no".to_string()));
    assert!(result.is_err() && changed);
    assert_eq!(get(&verdict), EngineHealth::Reachable);
    let (result, changed) = engine_exec(&mut verdict, 2_000, Reply::Answered(()));
    assert!(result.is_ok() && !changed);
}

#[test]
fn a_conversion_comes_to_the_candidates_that_were_sent() {
    let mut verdict = Verdict::new();
    let text = ComposingText {
        hiragana: "みず".to_string(),
        suggestions: vec![Suggestion {
            text: "水".to_string(),
            subtext: String::new(),
            corresponding_count: 4,
            surface_count: 2,
        }],
    };
    let (answered, changed) = converted(&mut verdict, Reply::Answered(Some(text)));
    let list = answered.unwrap();
    assert_eq!(list.texts, vec!["水".to_string()]);
    assert_eq!(list.hiragana, "みず");
    assert!(changed);
    assert_eq!(get(&verdict), EngineHealth::Reachable);

    // an answer without a reading is a failure, but the engine is there
    let (missing, changed) = converted(&mut verdict, Reply::Answered(None));
    assert_eq!(notes(&missing.unwrap_err()), vec!["composing_text is None"]);
    assert!(!changed);

    let (late, changed) = converted(&mut verdict, Reply::TimedOut);
    let late = late.unwrap_err();
    assert!(is_server_unavailable(&late));
    assert!(notes(&late).contains(&"IPC request timed out after 2s".to_string()));
    assert!(changed);
    assert_eq!(get(&verdict), EngineHealth::Unreachable);
}

#[test]
fn spans_are_written_as_durations_are() {
    for millis in [0, 1, 300, 500, 999, 1_000, 1_500, 1_050, 1_005, 2_000, 61_230] {
        assert_eq!(
            span_text(millis),
            format!("{:?}", std::time::Duration::from_millis(millis))
        );
    }
}

#[test]
fn a_reply_becomes_a_list_row_by_row() {
    let list = candidates_or_missing(Some(ComposingText {
        hiragana: "みずの".to_string(),
        suggestions: vec![
            Suggestion {
                text: "水".to_string(),
                subtext: "の".to_string(),
                corresponding_count: 4,
                surface_count: 2,
            },
            Suggestion {
                text: "水の".to_string(),
                subtext: String::new(),
                corresponding_count: 6,
                surface_count: 3,
            },
        ],
    }))
    .unwrap();
    assert_eq!(list.hiragana, "みずの");
    assert_eq!(list.entry(0), ("水".to_string(), "の".to_string(), 4, 2));
    assert_eq!(list.entry(1), ("水の".to_string(), String::new(), 6, 3));
    assert_eq!(list.entry(2), (String::new(), String::new(), 0, 0));
}

#[test]
fn a_reply_without_a_reading_is_a_failure() {
    let failure = candidates_or_missing(None).unwrap_err();
    assert_eq!(notes(&failure), vec!["composing_text is None"]);
    assert!(!is_server_unavailable(&failure));
}

#[test]
fn columns_that_differ_in_length_come_back_blank() {
    let list = Candidates {
        texts: vec!["水".to_string()],
        ..Candidates::none()
    };
    assert_eq!(list.entry(0), ("水".to_string(), String::new(), 0, 0));
}

#[test]
fn a_count_too_large_for_the_wire_stays_positive() {
    assert_eq!(removal_count(3), 3);
    assert_eq!(removal_count(u32::MAX), i32::MAX);
}

#[test]
fn only_an_unreachable_server_is_called_again() {
    let calls = std::cell::Cell::new(0);
    let _ = retry_idempotent(|_| -> Result<(), Failure> {
        calls.set(calls.get() + 1);
        Err(Failure::unavailable())
    });
    assert_eq!(calls.get(), 2);

    calls.set(0);
    let _ = retry_idempotent(|_| -> Result<(), Failure> {
        calls.set(calls.get() + 1);
        Err(Failure::new("rejected".to_string()))
    });
    assert_eq!(calls.get(), 1);
}

#[test]
fn the_flags_tell_a_new_list_from_a_new_selection() {
    assert_eq!(updated_flags(true), CANDIDATES_CHANGED);
    assert_eq!(updated_flags(false), SELECTION_CHANGED);
    assert!(matches!(command_candidate_window(true), WindowCommand::Show));
    assert!(matches!(command_candidate_window(false), WindowCommand::Hide));
}

#[test]
fn the_window_is_forced_by_two_spellings() {
    assert!(forces_candidate_window(Some("1")));
    assert!(forces_candidate_window(Some("true")));
    assert!(!forces_candidate_window(Some("yes")));
    assert!(!forces_candidate_window(None));
}

#[test]
fn a_stand_in_document_leads_to_the_one_it_stands_for() {
    assert!(is_transitory(Some(4)));
    assert!(!is_transitory(Some(3)));
    assert!(!is_transitory(None));
    assert_eq!(
        to_parent_document_if_exists(Some(1), Some(4), Some(2)).unwrap(),
        2
    );
    assert_eq!(
        to_parent_document_if_exists(Some(1), Some(4), None).unwrap(),
        1
    );
    assert_eq!(
        to_parent_document_if_exists(Some(1), Some(0), Some(2)).unwrap(),
        1
    );
    assert!(to_parent_document_if_exists::<u32>(None, Some(4), Some(2)).is_err());
    assert_eq!(to_parent_context_if_exists(Some(1), Some(2)).unwrap(), 2);
    assert_eq!(to_parent_context_if_exists(Some(1), None).unwrap(), 1);
    assert!(to_parent_context_if_exists::<u32>(None, None).is_err());
}

#[test]
fn a_read_is_decoded_as_far_as_it_went() {
    assert_eq!(context_text(&[0x3042, 0xD83C, 0xDF1F, 0x41], 3), "あ🌟");
    assert_eq!(context_text(&[0x3042, 0xD83C], 2), "あ\u{fffd}");
    assert_eq!(
        context_text(&[0xDF1F, 0xD83C, 0xD83C, 0xDF1F, 0xD83C, 0x41], 6),
        "\u{fffd}\u{fffd}🌟\u{fffd}A",
        "a surrogate without its other half is replaced, and nothing else"
    );
}

#[test]
fn the_module_stays_while_it_is_counted() {
    let mut module = DllModule::new();
    module.add_ref();
    module.add_ref();
    assert_eq!(module.ref_count, 2);
    module.release();
    assert_eq!(module.ref_count, 1);
    module.release();
    assert_eq!(module.ref_count, 0);
}

#[test]
fn the_path_is_asked_for_until_it_fits() {
    assert_eq!(path_step(0, 260), PathStep::Failed);
    assert_eq!(path_step(259, 260), PathStep::Complete(259));
    assert!(path_step(260, 260) == PathStep::Retry(520));
    assert_eq!(path_step(0x8000, 0x8000), PathStep::TooLong);
}
