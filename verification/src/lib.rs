//! Verified core of a rule-set test orchestrator for a containerized
//! log-processing engine.
//!
//! The library builds a deterministic image archive from templated
//! configuration and user rule fragments, models the container lifecycle
//! (build stream, port bindings, health polling), correlates engine output
//! events with submitted fixtures, and compares produced JSON against
//! recorded expectations in strict mode.
//!
//! All I/O (file reading, container runtime calls, HTTP) lives outside the
//! library; the functions here take plain values and return plain values,
//! with contracts stating exactly what they compute.

use vstd::prelude::*;

pub mod archive;
pub mod assets;
pub mod collectors;
pub mod compare;
pub mod docker;
pub mod driver;
pub mod errors;
pub mod health;
pub mod json;
pub mod server;
pub mod text;

verus! {

/// Loopback address the engine's ports are bound to.
pub const LOCALHOST: &'static str = "127.0.0.1";

/// Port the engine under test accepts fixture events on.
pub const INPUT_PORT: u16 = 5066;

/// Port this system's ingress listener binds for engine output events.
pub const OUTPUT_PORT: u16 = 5067;

/// Engine control-API port, used only as a health gate.
pub const API_PORT: u16 = 9600;

/// File name of the input fixture inside a test-case directory.
pub const INPUT_FILE: &'static str = "input.json";

/// File name of the expected fixture inside a test-case directory.
pub const EXPECTED_FILE: &'static str = "expected.json";

/// Extension of a rule fragment file.
pub const RULE_EXTENSION: &'static str = "conf";

/// Extension of a script file.
pub const SCRIPT_EXTENSION: &'static str = "rb";

/// Capacity of the bounded event queue between collector and driver.
pub const CHANNEL_CAPACITY: usize = 32;

/// Default directory of rule fragments, relative to the target.
pub const RULES_DIR: &'static str = "rules";

/// Default directory of test cases, relative to the target.
pub const TESTS_DIR: &'static str = "tests";

/// Directory of script files, both on disk and inside the artifact.
pub const SCRIPTS_DIR: &'static str = "scripts";

/// Directory of pattern files, both on disk and inside the artifact.
pub const PATTERNS_DIR: &'static str = "patterns";

/// File name of the artifact written by a run.
pub const IMAGE_ARCHIVE_NAME: &'static str = "image.tar";

/// Name of the assembled pipeline definition inside the artifact.
pub const PIPELINE_NAME: &'static str = "logstash.conf";

/// Name of the "input" stage template.
pub const INPUT_TEMPLATE_NAME: &'static str = "input.conf";

/// Name of the "output" stage template.
pub const OUTPUT_TEMPLATE_NAME: &'static str = "output.conf";

/// The run's arguments, as the command line hands them in.
pub struct DefaultArguments {
    /// Target directory holding the rule and test directories; the
    /// current working directory when absent.
    pub target: Option<String>,
    /// Keep the container after the run instead of deleting it.
    pub no_delete_container: bool,
    /// Where the rule fragments live, relative to the target.
    pub rules_dir: String,
    /// Where the test cases live, relative to the target.
    pub tests_dir: String,
    /// Where the script files live, relative to the target.
    pub scripts_dir: String,
    /// Where the pattern files live, relative to the target.
    pub patterns_dir: String,
}

impl Default for DefaultArguments {
    /// No target, container deleted after the run, and every directory at
    /// its fixed default.
    fn default() -> (r: Self)
        ensures
            r.target is None,
            !r.no_delete_container,
            r.rules_dir@ == RULES_DIR@,
            r.tests_dir@ == TESTS_DIR@,
            r.scripts_dir@ == SCRIPTS_DIR@,
            r.patterns_dir@ == PATTERNS_DIR@,
    {
        DefaultArguments {
            target: None,
            no_delete_container: false,
            rules_dir: RULES_DIR.to_owned(),
            tests_dir: TESTS_DIR.to_owned(),
            scripts_dir: SCRIPTS_DIR.to_owned(),
            patterns_dir: PATTERNS_DIR.to_owned(),
        }
    }
}

/// A run needs at least one rule and at least one test case; an empty
/// collection of either is a configuration error, found before anything
/// is built.
pub fn check_run_inputs(rules_len: usize, cases_len: usize) -> (r: Result<(), errors::RunError>)
    ensures
        (r is Ok) <==> (rules_len > 0 && cases_len > 0),
        r is Err ==> r->Err_0 is Configuration,
{
    if rules_len == 0 {
        let e = errors::RunError::Configuration {
            detail: String::from_str("no rules were found"),
        };
        return Err(e);
    }
    if cases_len == 0 {
        let e = errors::RunError::Configuration {
            detail: String::from_str("no test cases were found"),
        };
        return Err(e);
    }
    Ok(())
}

} // verus!
