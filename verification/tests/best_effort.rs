use azookey_windows::best_effort::BestEffort;

#[test]
fn a_clean_sequence_succeeds() {
    let mut steps = BestEffort::new("teardown");
    steps.step(Ok(()));
    steps.step(Ok(()));
    assert!(steps.finish().is_ok());
}

#[test]
fn the_first_failure_is_what_surfaces() {
    let mut steps = BestEffort::new("teardown");
    steps.step(Err(anyhow::Error::msg("first")));
    steps.step(Ok(()));
    steps.step(Err(anyhow::Error::msg("second")));

    let error = steps.finish().expect_err("a failing step must surface");
    let rendered = format!("{error:#}");
    assert!(rendered.contains("first"), "{rendered}");
    assert!(
        rendered.contains("2 failing steps"),
        "the count of the ones that were swallowed must not be lost: {rendered}"
    );
}

#[test]
fn a_single_failure_is_not_wrapped() {
    let mut steps = BestEffort::new("teardown");
    steps.step(Err(anyhow::Error::msg("only")));
    let error = steps.finish().expect_err("a failing step must surface");
    assert_eq!(format!("{error:#}"), "only");
}

#[test]
fn the_note_stands_before_the_first_failure() {
    let mut steps = BestEffort::new("teardown");
    steps.step(Err(anyhow::Error::msg("root").context("first")));
    steps.step(Err(anyhow::Error::msg("second")));
    steps.step(Err(anyhow::Error::msg("third")));
    let error = steps.finish().expect_err("a failing step must surface");
    let chain: Vec<String> = error.chain().map(|cause| cause.to_string()).collect();
    assert_eq!(
        chain,
        vec!["teardown had 3 failing steps; this is the first", "first", "root"]
    );
}
