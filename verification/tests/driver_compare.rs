use lotus::compare::{compare_strict, render_diff, render_diffs, Diff, DiffKind, PathSeg};
use lotus::driver::{
    check_case, finish_run, no_output_error, parse_case, run_cases, ParsedCase, RunOutcome,
    RunReport, TestCase,
};
use lotus::errors::{CommFailure, RunError};
use lotus::json::{json_dup, json_eq, parse_json, Json};

fn obj(fields: Vec<(&str, Json)>) -> Json {
    Json::Object(fields.into_iter().map(|(k, v)| (k.to_string(), v)).collect())
}

fn text(s: &str) -> Json {
    Json::Text(s.to_string())
}

fn dummy_expected() -> Json {
    obj(vec![("dummy", text("true"))])
}

fn dummy_case(name: &str) -> ParsedCase {
    ParsedCase { name: name.to_string(), input: obj(vec![]), expected: dummy_expected() }
}

#[test]
fn parse_case_reads_both_fixtures() {
    let raw = TestCase {
        name: "a".to_string(),
        input_text: "{}".to_string(),
        expected_text: "{\"dummy\":\"true\"}".to_string(),
    };
    let parsed = parse_case(&raw).expect("both fixtures are valid JSON");
    assert_eq!(parsed.name, "a");
    assert!(json_eq(&parsed.input, &obj(vec![])));
    assert!(json_eq(&parsed.expected, &dummy_expected()));
}

#[test]
fn parse_case_rejects_a_broken_fixture() {
    let raw = TestCase {
        name: "a".to_string(),
        input_text: "{not json".to_string(),
        expected_text: "{}".to_string(),
    };
    let err = parse_case(&raw).expect_err("the input fixture is not JSON");
    assert!(matches!(err, RunError::Io { .. }));
}

#[test]
fn parser_orders_object_keys_and_splits_number_kinds() {
    let parsed = parse_json("{\"b\":1,\"a\":-2,\"c\":1.5}").expect("valid JSON");
    let expected = obj(vec![
        ("a", Json::Int(-2)),
        ("b", Json::UInt(1)),
        ("c", Json::Decimal("1.5".to_string())),
    ]);
    assert!(json_eq(&parsed, &expected));
}

#[test]
fn equal_documents_have_no_differences() {
    let a = obj(vec![("dummy", text("true")), ("n", Json::UInt(5))]);
    let b = obj(vec![("dummy", text("true")), ("n", Json::UInt(5))]);
    assert!(json_eq(&a, &b));
    assert!(compare_strict(&a, &b).is_empty());
}

#[test]
fn an_extra_field_fails_strict_comparison() {
    let actual = obj(vec![("dummy", text("true")), ("extra", Json::UInt(1))]);
    let diffs = compare_strict(&actual, &dummy_expected());
    assert!(!diffs.is_empty());
}

#[test]
fn scalar_kind_must_match() {
    assert!(!json_eq(&Json::UInt(1), &text("1")));
    assert!(!json_eq(&Json::UInt(1), &Json::Int(1)));
    assert!(!json_eq(&Json::Bool(true), &text("true")));
    let diffs = compare_strict(&Json::UInt(1), &text("1"));
    assert_eq!(diffs.len(), 1);
    assert_eq!(diffs[0].kind, DiffKind::Changed);
    assert!(diffs[0].path.is_empty());
}

#[test]
fn arrays_are_order_and_length_sensitive() {
    let a = Json::Array(vec![Json::UInt(1), Json::UInt(2)]);
    let b = Json::Array(vec![Json::UInt(2), Json::UInt(1)]);
    assert!(!json_eq(&a, &b));
    assert!(!compare_strict(&a, &b).is_empty());
    let c = Json::Array(vec![Json::UInt(1)]);
    assert!(!json_eq(&a, &c));
    assert!(!compare_strict(&a, &c).is_empty());
    assert!(compare_strict(&a, &a).is_empty());
}

#[test]
fn comparison_agrees_with_a_reference_strict_checker() {
    let pairs = [
        ("{\"dummy\":\"true\"}", "{\"dummy\":\"true\"}"),
        ("{\"dummy\":\"true\",\"extra\":1}", "{\"dummy\":\"true\"}"),
        ("[1,2,3]", "[1,2,3]"),
        ("[1,2,3]", "[3,2,1]"),
        ("{\"a\":{\"b\":null}}", "{\"a\":{\"b\":null}}"),
        ("{\"a\":{\"b\":null}}", "{\"a\":{\"b\":0}}"),
    ];
    let config = assert_json_diff::Config::new(assert_json_diff::CompareMode::Strict);
    for (left, right) in pairs {
        let mine_left = parse_json(left).expect("valid JSON");
        let mine_right = parse_json(right).expect("valid JSON");
        let mine = compare_strict(&mine_left, &mine_right).is_empty();
        let reference_left: serde_json::Value = serde_json::from_str(left).unwrap();
        let reference_right: serde_json::Value = serde_json::from_str(right).unwrap();
        let reference = assert_json_diff::assert_json_matches_no_panic(
            &reference_left,
            &reference_right,
            config.clone(),
        )
        .is_ok();
        assert_eq!(mine, reference, "disagreement on {left} vs {right}");
    }
}

#[test]
fn json_dup_copies_exactly() {
    let a = obj(vec![
        ("arr", Json::Array(vec![Json::Null, Json::Bool(false)])),
        ("n", Json::Decimal("2.5".to_string())),
    ]);
    let b = json_dup(&a);
    assert!(json_eq(&a, &b));
}

#[test]
fn matching_event_passes_and_mismatch_names_the_case() {
    let case = dummy_case("a");
    assert!(check_case(0, &case, &dummy_expected()).is_ok());
    let wrong = obj(vec![("dummy", text("false"))]);
    let err = check_case(3, &case, &wrong).expect_err("the event differs");
    match err {
        RunError::Comparison { index, name, actual, expected, diffs } => {
            assert_eq!(index, 3);
            assert_eq!(name, "a");
            assert!(json_eq(&actual, &wrong));
            assert!(json_eq(&expected, &dummy_expected()));
            assert!(!diffs.is_empty());
        },
        other => panic!("expected a comparison error, got: {}", other.message()),
    }
}

#[test]
fn all_matching_cases_pass_consuming_one_event_each() {
    let cases = vec![dummy_case("a"), dummy_case("b"), dummy_case("c"), dummy_case("d")];
    let events = vec![dummy_expected(), dummy_expected(), dummy_expected(), dummy_expected()];
    let report = run_cases(&cases, &events);
    assert!(matches!(report.outcome, RunOutcome::Passed));
    assert_eq!(report.consumed, 4);
}

#[test]
fn a_mismatch_halts_the_run_before_the_next_case() {
    let cases = vec![dummy_case("a"), dummy_case("b"), dummy_case("c"), dummy_case("d")];
    let events = vec![
        dummy_expected(),
        obj(vec![("dummy", text("false"))]),
        dummy_expected(),
        dummy_expected(),
    ];
    let report = run_cases(&cases, &events);
    match report.outcome {
        RunOutcome::Failed { index, error } => {
            assert_eq!(index, 1);
            assert!(matches!(error, RunError::Comparison { .. }));
        },
        RunOutcome::Passed => panic!("the run must fail at the second case"),
    }
    assert_eq!(report.consumed, 2);
}

#[test]
fn a_missing_event_is_a_distinct_communication_error() {
    let cases = vec![dummy_case("a"), dummy_case("b")];
    let events = vec![dummy_expected()];
    let report = run_cases(&cases, &events);
    match report.outcome {
        RunOutcome::Failed { index, error } => {
            assert_eq!(index, 1);
            match error {
                RunError::Communication { failure: CommFailure::NoOutput { index, name } } => {
                    assert_eq!(index, 1);
                    assert_eq!(name, "b");
                },
                other => panic!("expected no-output, got: {}", other.message()),
            }
        },
        RunOutcome::Passed => panic!("the run must fail"),
    }
    assert_eq!(report.consumed, 1);
}

#[test]
fn no_output_error_names_the_case() {
    let e = no_output_error(7, &dummy_case("seven"));
    assert_eq!(e.message(), "communication error: the engine produced no output for test case seven");
}

#[test]
fn teardown_failure_never_masks_the_primary_outcome() {
    let report = RunReport { outcome: RunOutcome::Passed, consumed: 2 };
    let finished = finish_run(report, Err("socket closed".to_string()));
    assert!(matches!(finished.report.outcome, RunOutcome::Passed));
    assert_eq!(finished.report.consumed, 2);
    match finished.teardown {
        Some(RunError::ContainerLifecycle { detail }) => {
            assert_eq!(detail, "stopping the container failed: socket closed");
        },
        _ => panic!("the teardown failure must be kept as a secondary error"),
    }
    let clean = finish_run(RunReport { outcome: RunOutcome::Passed, consumed: 2 }, Ok(()));
    assert!(clean.teardown.is_none());
}

#[test]
fn error_messages_are_exact() {
    let e = RunError::Configuration { detail: "no rules were found".to_string() };
    assert_eq!(e.message(), "configuration error: no rules were found");
    let io = RunError::Io { detail: "boom".to_string() };
    assert_eq!(io.message(), "i/o error: boom");
    let health = RunError::HealthCheck {
        failure: lotus::errors::HealthFailure::StatusMissing,
    };
    assert_eq!(health.message(), "health check error: no container health status was found");
    let send = RunError::Communication {
        failure: CommFailure::SendFailed { detail: "refused".to_string() },
    };
    assert_eq!(
        send.message(),
        "communication error: sending input to the engine failed: refused"
    );
    let build = RunError::Build {
        failure: lotus::errors::BuildFailure::NoImageId,
    };
    assert_eq!(build.message(), "build error: no container image id was found");
    let lifecycle = RunError::ContainerLifecycle { detail: "gone".to_string() };
    assert_eq!(lifecycle.message(), "container lifecycle error: gone");
}

#[test]
fn dummy_rule_scenario_passes_iff_the_event_is_exactly_expected() {
    // The rule under test adds one field:
    // filter { mutate { add_field => { "[dummy]" => "true" } } }
    let raw = TestCase {
        name: "a".to_string(),
        input_text: "{}".to_string(),
        expected_text: "{\"dummy\":\"true\"}".to_string(),
    };
    let case = parse_case(&raw).expect("valid fixtures");
    let cases = vec![case];

    let exact = vec![parse_json("{\"dummy\":\"true\"}").unwrap()];
    let report = run_cases(&cases, &exact);
    assert!(matches!(report.outcome, RunOutcome::Passed));

    let with_engine_added_fields =
        vec![parse_json("{\"dummy\":\"true\",\"host\":\"172.17.0.1\"}").unwrap()];
    let report = run_cases(&cases, &with_engine_added_fields);
    assert!(matches!(
        report.outcome,
        RunOutcome::Failed { index: 0, error: RunError::Comparison { .. } }
    ));
}

#[test]
fn a_mismatched_fixture_reports_payloads_and_still_tears_down() {
    let case = dummy_case("a");
    let cases = vec![case];
    let actual_event = obj(vec![("dummy", text("false"))]);
    let events = vec![json_dup(&actual_event)];
    let report = run_cases(&cases, &events);
    let finished = finish_run(report, Ok(()));
    assert!(finished.teardown.is_none());
    match finished.report.outcome {
        RunOutcome::Failed { index, error: RunError::Comparison { name, actual, expected, .. } } => {
            assert_eq!(index, 0);
            assert_eq!(name, "a");
            assert!(json_eq(&actual, &actual_event));
            assert!(json_eq(&expected, &dummy_expected()));
        },
        _ => panic!("the run must fail with a comparison error"),
    }
}

#[test]
fn diff_rendering_is_location_qualified() {
    let nested = Diff {
        path: vec![PathSeg::Key("a".to_string()), PathSeg::Index(2)],
        kind: DiffKind::Changed,
    };
    assert_eq!(render_diff(&nested), "changed at root.a[2]");
    let top = Diff { path: vec![], kind: DiffKind::Added };
    assert_eq!(render_diffs(&vec![nested, top]), "changed at root.a[2]\nadded at root");
    assert_eq!(render_diffs(&vec![]), "");
}

#[test]
fn a_nested_mismatch_renders_its_path() {
    let actual = parse_json("{\"a\":{\"b\":1}}").unwrap();
    let expected = parse_json("{\"a\":{\"b\":2}}").unwrap();
    let diffs = compare_strict(&actual, &expected);
    assert_eq!(render_diffs(&diffs), "changed at root.a.b");
    let actual = parse_json("[1,[2]]").unwrap();
    let expected = parse_json("[1,[3]]").unwrap();
    let diffs = compare_strict(&actual, &expected);
    assert_eq!(render_diffs(&diffs), "changed at root[1][0]");
}

#[test]
fn disagreeing_keys_are_classified_by_side() {
    let actual = obj(vec![("a", Json::UInt(1))]);
    let expected = obj(vec![("b", Json::UInt(1))]);
    let diffs = compare_strict(&actual, &expected);
    assert_eq!(diffs.len(), 2);
    assert_eq!(diffs[0].kind, DiffKind::Added);
    assert_eq!(render_diff(&diffs[0]), "added at root.a");
    assert_eq!(diffs[1].kind, DiffKind::Removed);
    assert_eq!(render_diff(&diffs[1]), "removed at root.b");
}
