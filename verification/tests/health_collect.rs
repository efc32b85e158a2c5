use lotus::collectors::{
    collect_patterns, collect_rules, collect_scripts, collect_tests, extension_of, sort_names,
    CaseDir, FileEntry, NamedFile,
};
use lotus::docker::{build_stream_outcome, container_spec, port_key, BuildEvent, Image};
use lotus::errors::{BuildFailure, HealthFailure, RunError};
use lotus::health::{run_health_poll, HealthAction, HealthObservation, HealthPoll, PollEnd};
use lotus::json::{json_eq, Json};
use lotus::server::{handle_ingress, IngressOutcome};
use lotus::text::u64_decimal;
use lotus::{check_run_inputs, DefaultArguments};

fn file(name: &str) -> FileEntry {
    FileEntry { name: name.to_string(), is_file: true }
}

fn dir(name: &str) -> FileEntry {
    FileEntry { name: name.to_string(), is_file: false }
}

fn starting(n: usize) -> Vec<HealthObservation> {
    (0..n).map(|_| HealthObservation::Starting).collect()
}

#[test]
fn perpetual_starting_fails_after_exactly_the_retry_bound() {
    let report = run_health_poll(&starting(20), 10);
    assert!(matches!(
        report.end,
        PollEnd::Failed { failure: HealthFailure::RetriesExhausted { retries: 10 } }
    ));
    assert_eq!(report.polls, 10);
    assert_eq!(report.sleeps, 9);
}

#[test]
fn a_missing_health_field_fails_immediately_with_zero_sleeps() {
    let mut obs = vec![HealthObservation::Missing];
    obs.extend(starting(5));
    let report = run_health_poll(&obs, 10);
    assert!(matches!(report.end, PollEnd::Failed { failure: HealthFailure::StatusMissing }));
    assert_eq!(report.polls, 1);
    assert_eq!(report.sleeps, 0);
}

#[test]
fn a_still_starting_engine_under_the_bound_exhausts_the_observations() {
    let report = run_health_poll(&starting(3), 10);
    assert!(matches!(report.end, PollEnd::Exhausted));
    assert_eq!(report.polls, 3);
    assert_eq!(report.sleeps, 3);
}

#[test]
fn a_healthy_report_ends_the_poll() {
    let mut obs = starting(3);
    obs.push(HealthObservation::Healthy);
    let report = run_health_poll(&obs, 10);
    assert!(matches!(report.end, PollEnd::Ready));
    assert_eq!(report.polls, 4);
    assert_eq!(report.sleeps, 3);
}

#[test]
fn an_unexpected_status_fails_at_once() {
    let obs = vec![HealthObservation::Unexpected { status: "unhealthy".to_string() }];
    let report = run_health_poll(&obs, 10);
    match report.end {
        PollEnd::Failed { failure: HealthFailure::UnexpectedStatus { status } } => {
            assert_eq!(status, "unhealthy");
        },
        _ => panic!("an unexpected status must end the poll with a failure"),
    }
    assert_eq!(report.sleeps, 0);
}

#[test]
fn the_poller_counts_attempts_against_the_bound() {
    let mut poll = HealthPoll::new(2);
    assert!(matches!(poll.observe(&HealthObservation::Starting), HealthAction::SleepAndPoll));
    assert!(matches!(
        poll.observe(&HealthObservation::Starting),
        HealthAction::Fail { failure: HealthFailure::RetriesExhausted { retries: 2 } }
    ));
    let mut healthy = HealthPoll::new(2);
    assert!(matches!(healthy.observe(&HealthObservation::Healthy), HealthAction::Ready));
}

#[test]
fn extensions_follow_the_last_dot() {
    assert_eq!(extension_of("00-dummy.conf"), Some("conf".to_string()));
    assert_eq!(extension_of("a.b.c"), Some("c".to_string()));
    assert_eq!(extension_of(".gitignore"), None);
    assert_eq!(extension_of("noext"), None);
    assert_eq!(extension_of("trailing."), Some("".to_string()));
}

#[test]
fn rules_are_filtered_by_extension_and_sorted_by_name() {
    let entries = vec![
        file("10-second.conf"),
        file("readme.md"),
        dir("99-a-directory.conf"),
        file("00-dummy.conf"),
        file("helper.rb"),
    ];
    let rules = collect_rules(&entries);
    assert_eq!(rules, vec!["00-dummy.conf".to_string(), "10-second.conf".to_string()]);
}

#[test]
fn scripts_and_patterns_have_their_own_selections() {
    let entries = vec![file("b.rb"), file("a.rb"), file("x.grok"), file("noext")];
    assert_eq!(collect_scripts(&entries), vec!["a.rb".to_string(), "b.rb".to_string()]);
    assert_eq!(
        collect_patterns(&entries),
        vec!["a.rb".to_string(), "b.rb".to_string(), "x.grok".to_string()]
    );
}

#[test]
fn sorting_is_ascending_by_code_point() {
    let names = vec!["b".to_string(), "a".to_string(), "aa".to_string(), "B".to_string()];
    assert_eq!(
        sort_names(names),
        vec!["B".to_string(), "a".to_string(), "aa".to_string(), "b".to_string()]
    );
}

#[test]
fn test_cases_pair_input_and_expected_fixtures() {
    let dirs = vec![
        CaseDir {
            name: "a".to_string(),
            files: vec![
                NamedFile { name: "input.json".to_string(), text: "{}".to_string() },
                NamedFile { name: "expected.json".to_string(), text: "{\"x\":1}".to_string() },
            ],
        },
        CaseDir {
            name: "b".to_string(),
            files: vec![
                NamedFile { name: "expected.json".to_string(), text: "{}".to_string() },
                NamedFile { name: "input.json".to_string(), text: "{\"y\":2}".to_string() },
            ],
        },
    ];
    let cases = collect_tests(&dirs).expect("both directories are complete");
    assert_eq!(cases.len(), 2);
    assert_eq!(cases[0].name, "a");
    assert_eq!(cases[0].input_text, "{}");
    assert_eq!(cases[0].expected_text, "{\"x\":1}");
    assert_eq!(cases[1].name, "b");
    assert_eq!(cases[1].input_text, "{\"y\":2}");
}

#[test]
fn a_missing_fixture_fails_the_collection() {
    let dirs = vec![CaseDir {
        name: "broken".to_string(),
        files: vec![NamedFile { name: "input.json".to_string(), text: "{}".to_string() }],
    }];
    let err = collect_tests(&dirs).expect_err("the expected fixture is missing");
    match err {
        RunError::Io { detail } => {
            assert_eq!(detail, "the expected fixture is missing from test case broken");
        },
        _ => panic!("a missing fixture is an i/o error"),
    }
}

#[test]
fn the_build_stream_yields_the_last_named_image() {
    let events = vec![
        BuildEvent::Progress,
        BuildEvent::ImageId { id: Some("sha256:first".to_string()) },
        BuildEvent::Progress,
        BuildEvent::ImageId { id: Some("sha256:final".to_string()) },
    ];
    let image = build_stream_outcome(&events).expect("the stream named an image");
    assert_eq!(image.id, "sha256:final");
}

#[test]
fn build_stream_failures_are_distinguished() {
    let stream = vec![
        BuildEvent::Progress,
        BuildEvent::StreamError { detail: "bad Dockerfile".to_string() },
        BuildEvent::ImageId { id: Some("sha256:ignored".to_string()) },
    ];
    match build_stream_outcome(&stream) {
        Err(RunError::Build { failure: BuildFailure::Stream { detail } }) => {
            assert_eq!(detail, "bad Dockerfile");
        },
        _ => panic!("the structured stream error must surface"),
    }
    let transport = vec![BuildEvent::TransportError { detail: "socket closed".to_string() }];
    assert!(matches!(
        build_stream_outcome(&transport),
        Err(RunError::Build { failure: BuildFailure::Transport { .. } })
    ));
    let silent = vec![BuildEvent::Progress];
    assert!(matches!(
        build_stream_outcome(&silent),
        Err(RunError::Build { failure: BuildFailure::NoImageId })
    ));
}

#[test]
fn the_container_binds_both_ports_on_loopback() {
    let image = Image { id: "sha256:final".to_string() };
    let spec = container_spec(&image, true);
    assert_eq!(spec.image_id, "sha256:final");
    assert!(spec.attach_stdout);
    assert!(spec.attach_stderr);
    assert!(spec.auto_remove);
    assert_eq!(spec.port_bindings.len(), 2);
    assert_eq!(spec.port_bindings[0].container_port, "5066/tcp");
    assert_eq!(spec.port_bindings[0].host_ip, "127.0.0.1");
    assert_eq!(spec.port_bindings[0].host_port, "5066/tcp");
    assert_eq!(spec.port_bindings[1].container_port, "9600/tcp");
    assert_eq!(spec.port_bindings[1].host_port, "9600/tcp");
}

#[test]
fn decimal_rendering_is_exact() {
    assert_eq!(u64_decimal(0), "0");
    assert_eq!(u64_decimal(5066), "5066");
    assert_eq!(u64_decimal(18446744073709551615), "18446744073709551615");
    assert_eq!(port_key(9600), "9600/tcp");
}

#[test]
fn only_a_json_post_to_the_root_is_accepted() {
    match handle_ingress("POST", "/", "{\"dummy\":\"true\"}") {
        IngressOutcome::Accept { event } => {
            let expected = Json::Object(vec![(
                "dummy".to_string(),
                Json::Text("true".to_string()),
            )]);
            assert!(json_eq(&event, &expected));
        },
        IngressOutcome::Reject { status } => panic!("rejected with {status}"),
    }
    assert!(matches!(handle_ingress("GET", "/", "{}"), IngressOutcome::Reject { status: 405 }));
    assert!(matches!(
        handle_ingress("POST", "/other", "{}"),
        IngressOutcome::Reject { status: 404 }
    ));
    assert!(matches!(
        handle_ingress("POST", "/", "not json"),
        IngressOutcome::Reject { status: 400 }
    ));
}

#[test]
fn a_run_needs_rules_and_test_cases() {
    assert!(check_run_inputs(1, 1).is_ok());
    let no_rules = check_run_inputs(0, 4).expect_err("no rules");
    assert_eq!(no_rules.message(), "configuration error: no rules were found");
    let no_tests = check_run_inputs(2, 0).expect_err("no test cases");
    assert_eq!(no_tests.message(), "configuration error: no test cases were found");
}

#[test]
fn default_arguments_use_the_fixed_directories() {
    let args = DefaultArguments::default();
    assert!(args.target.is_none());
    assert!(!args.no_delete_container);
    assert_eq!(args.rules_dir, "rules");
    assert_eq!(args.tests_dir, "tests");
    assert_eq!(args.scripts_dir, "scripts");
    assert_eq!(args.patterns_dir, "patterns");
}

#[test]
fn the_image_tag_carries_the_cache_key() {
    assert_eq!(lotus::docker::image_tag("12345"), "nausicaea/lotus-12345:latest");
}
