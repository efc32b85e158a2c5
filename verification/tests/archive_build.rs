use std::io::Read;

use lotus::archive::{
    assemble_pipeline, build_image_archive, default_render_context, render_template, NamedBytes,
};
use lotus::assets::{ConfigAssets, PipelineAssets, Template};
use lotus::errors::RunError;

fn template(name: &str, text: &str) -> Template {
    Template { name: name.to_string(), text: text.to_string() }
}

fn named(name: &str, bytes: &[u8]) -> NamedBytes {
    NamedBytes { name: name.to_string(), bytes: bytes.to_vec() }
}

fn pipeline_assets() -> PipelineAssets {
    PipelineAssets {
        input_template: "input { port => {{input_port}} }\n".to_string(),
        output_template: "output { port => {{output_port}} }\n".to_string(),
    }
}

fn build_sample() -> Vec<u8> {
    let config = ConfigAssets {
        templates: vec![
            template("logstash.yml", "api_port: {{api_port}}\n"),
            template("pipelines.yml", "pipeline: {{pipeline_name}}\n"),
        ],
    };
    let ctx = default_render_context();
    let rules = vec![
        b"filter { mutate { add_field => { \"[dummy]\" => \"true\" } } }\n".to_vec(),
        b"filter { }\n".to_vec(),
    ];
    let scripts = vec![named("helper.rb", b"# ruby\n")];
    let patterns = vec![named("extra.grok", b"PATTERN .*\n")];
    build_image_archive(&config, &pipeline_assets(), &ctx, &rules, &scripts, &patterns)
        .expect("the build must succeed")
}

fn entries_of(bytes: &[u8]) -> Vec<(String, Vec<u8>)> {
    let mut archive = tar::Archive::new(bytes);
    let mut out = Vec::new();
    for entry in archive.entries().expect("a readable archive") {
        let mut entry = entry.expect("a readable entry");
        let path = entry.path().expect("a named entry").to_string_lossy().into_owned();
        let mut content = Vec::new();
        entry.read_to_end(&mut content).expect("readable content");
        out.push((path, content));
    }
    out
}

#[test]
fn render_substitutes_parameters() {
    let ctx = default_render_context();
    let rendered = render_template("port={{input_port}}", &ctx).expect("rendering must succeed");
    assert_eq!(rendered, b"port=5066".to_vec());
}

#[test]
fn render_strict_mode_rejects_unknown_parameter() {
    let ctx = default_render_context();
    assert!(render_template("{{no_such_parameter}}", &ctx).is_err());
}

#[test]
fn pipeline_is_exact_concatenation() {
    let input = b"IN".to_vec();
    let rules = vec![b"A".to_vec(), b"BB".to_vec()];
    let output = b"OUT".to_vec();
    let assembled = assemble_pipeline(&input, &rules, &output);
    assert_eq!(assembled, b"INABBOUT".to_vec());
}

#[test]
fn artifact_holds_rendered_config_and_assembled_pipeline() {
    let bytes = build_sample();
    let entries = entries_of(&bytes);
    let names: Vec<&str> = entries.iter().map(|e| e.0.as_str()).collect();
    assert_eq!(
        names,
        vec![
            "logstash.yml",
            "pipelines.yml",
            "logstash.conf",
            "scripts/helper.rb",
            "scripts/.gitkeep",
            "patterns/extra.grok",
            "patterns/.gitkeep",
        ]
    );
    assert_eq!(entries[0].1, b"api_port: 9600\n".to_vec());
    assert_eq!(entries[1].1, b"pipeline: logstash.conf\n".to_vec());
    let expected_pipeline = [
        b"input { port => 5066 }\n".to_vec(),
        b"filter { mutate { add_field => { \"[dummy]\" => \"true\" } } }\n".to_vec(),
        b"filter { }\n".to_vec(),
        b"output { port => 5067 }\n".to_vec(),
    ]
    .concat();
    assert_eq!(entries[2].1, expected_pipeline);
    assert_eq!(entries[3].1, b"# ruby\n".to_vec());
    assert_eq!(entries[4].1, Vec::<u8>::new());
    assert_eq!(entries[5].1, b"PATTERN .*\n".to_vec());
    assert_eq!(entries[6].1, Vec::<u8>::new());
}

#[test]
fn building_twice_yields_byte_identical_artifacts() {
    let first = build_sample();
    let second = build_sample();
    assert_eq!(first, second);
}

#[test]
fn placeholder_entries_exist_with_no_auxiliary_files() {
    let config = ConfigAssets { templates: vec![] };
    let ctx = default_render_context();
    let rules = vec![b"filter { }\n".to_vec()];
    let bytes = build_image_archive(&config, &pipeline_assets(), &ctx, &rules, &vec![], &vec![])
        .expect("the build must succeed");
    let entries = entries_of(&bytes);
    let names: Vec<&str> = entries.iter().map(|e| e.0.as_str()).collect();
    assert_eq!(names, vec!["logstash.conf", "scripts/.gitkeep", "patterns/.gitkeep"]);
}

#[test]
fn auxiliary_file_without_base_name_is_a_configuration_error() {
    let config = ConfigAssets { templates: vec![] };
    let ctx = default_render_context();
    let rules = vec![b"filter { }\n".to_vec()];
    let scripts = vec![named("", b"x")];
    let err = build_image_archive(&config, &pipeline_assets(), &ctx, &rules, &scripts, &vec![])
        .expect_err("an empty base name must fail");
    assert!(matches!(err, RunError::Configuration { .. }));
}

#[test]
fn unresolved_template_parameter_is_a_configuration_error() {
    let config = ConfigAssets { templates: vec![template("bad.yml", "{{missing}}")] };
    let ctx = default_render_context();
    let rules = vec![b"filter { }\n".to_vec()];
    let err = build_image_archive(&config, &pipeline_assets(), &ctx, &rules, &vec![], &vec![])
        .expect_err("strict mode must reject the template");
    assert!(matches!(err, RunError::Configuration { .. }));
}
