use azookey_windows::engine::engine_health::{
    get, menu_notice, record, tooltip, EngineHealth, Verdict,
};
use azookey_windows::failure::{is_server_unavailable, Failure, ServerUnavailable};

#[test]
fn every_state_survives_a_round_trip_through_the_atomic() {
    let mut verdict = Verdict::new();
    for health in [
        EngineHealth::Unknown,
        EngineHealth::Reachable,
        EngineHealth::Unreachable,
    ] {
        azookey_windows::engine::engine_health::set(&mut verdict, health);
        assert_eq!(get(&verdict), health);
        assert_eq!(EngineHealth::from_repr(health.repr()), health);
    }
}

#[test]
fn a_transport_failure_marks_the_engine_unreachable() {
    let mut verdict = Verdict::new();
    azookey_windows::engine::engine_health::set(&mut verdict, EngineHealth::Reachable);

    let result: Result<(), Failure> =
        Err(Failure::unavailable().context("IPC transport error".to_string()));
    record(&mut verdict, &result);

    assert_eq!(get(&verdict), EngineHealth::Unreachable);
}

#[test]
fn a_rejected_request_still_counts_as_reachable() {
    let mut verdict = Verdict::new();
    azookey_windows::engine::engine_health::set(&mut verdict, EngineHealth::Unreachable);

    let result: Result<(), Failure> = Err(Failure::new("InvalidArgument".to_string()));
    record(&mut verdict, &result);

    assert_eq!(get(&verdict), EngineHealth::Reachable);
}

#[test]
fn a_successful_rpc_clears_an_earlier_verdict() {
    let mut verdict = Verdict::new();
    azookey_windows::engine::engine_health::set(&mut verdict, EngineHealth::Unreachable);

    let answered: Result<(), Failure> = Ok(());
    record(&mut verdict, &answered);

    assert_eq!(get(&verdict), EngineHealth::Reachable);
}

#[test]
fn only_an_unreachable_engine_produces_a_tooltip() {
    assert!(tooltip(EngineHealth::Unreachable).is_some());
    assert_eq!(tooltip(EngineHealth::Reachable), None);
    assert_eq!(tooltip(EngineHealth::Unknown), None);
    assert!(menu_notice(EngineHealth::Unreachable).is_some());
    assert_eq!(menu_notice(EngineHealth::Reachable), None);
}

#[test]
fn the_tooltip_names_the_launcher() {
    let text = tooltip(EngineHealth::Unreachable).unwrap();
    assert!(text.contains("launcher.exe"), "{text}");
}

#[test]
fn only_a_change_of_verdict_is_reported() {
    let mut verdict = Verdict::new();
    let answered: Result<(), Failure> = Ok(());
    let lost: Result<(), Failure> = Err(Failure::unavailable());
    assert!(record(&mut verdict, &answered));
    assert!(!record(&mut verdict, &answered));
    assert!(record(&mut verdict, &lost));
    assert!(!record(&mut verdict, &lost));
}

#[test]
fn the_tag_is_found_under_every_note() {
    let lost = Failure::unavailable()
        .context("IPC transport error".to_string())
        .context("append_text".to_string());
    assert!(is_server_unavailable(&lost));
    assert!(!is_server_unavailable(&Failure::new(
        ServerUnavailable.message().to_string()
    )));
}
