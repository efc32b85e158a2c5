//! Deterministic build artifact: rendered configuration, the assembled
//! pipeline definition, and the auxiliary files, in one archive.
//!
//! The assembled pipeline is byte-exact: the rendered "input" stage, then
//! the raw bytes of every rule fragment in ascending name order, then the
//! rendered "output" stage. Every archive entry carries fixed metadata,
//! so the whole artifact is a function of its inputs alone: building
//! twice from identical inputs yields byte-identical artifacts.

use vstd::prelude::*;
use vstd::string::{StrSliceExecFns, StringExecFns};

use crate::assets::{ConfigAssets, PipelineAssets, Template};
use crate::errors::RunError;

verus! {

/// The parameter context the fixed templates are rendered against.
pub struct RenderContext {
    /// Port the engine accepts fixture events on.
    pub input_port: u16,
    /// Port the engine emits output events to.
    pub output_port: u16,
    /// The engine's control-API port.
    pub api_port: u16,
    /// Name of the assembled pipeline definition inside the artifact.
    pub pipeline_name: String,
    /// Directory of script files inside the engine.
    pub scripts_dir: String,
    /// Directory of pattern files inside the engine.
    pub patterns_dir: String,
}

/// The context every run renders with: the fixed ports and names.
pub fn default_render_context() -> (r: RenderContext)
    ensures
        r.input_port == crate::INPUT_PORT,
        r.output_port == crate::OUTPUT_PORT,
        r.api_port == crate::API_PORT,
        r.pipeline_name@ == crate::PIPELINE_NAME@,
        r.scripts_dir@ == crate::SCRIPTS_DIR@,
        r.patterns_dir@ == crate::PATTERNS_DIR@,
{
    RenderContext {
        input_port: crate::INPUT_PORT,
        output_port: crate::OUTPUT_PORT,
        api_port: crate::API_PORT,
        pipeline_name: crate::PIPELINE_NAME.to_owned(),
        scripts_dir: crate::SCRIPTS_DIR.to_owned(),
        patterns_dir: crate::PATTERNS_DIR.to_owned(),
    }
}

/// What a template renders to against the given parameters. Rendering is
/// deterministic in the template and the parameters, so the result can be
/// given a name; what the name denotes on given values is only learned by
/// calling [`render_template`].
pub uninterp spec fn spec_render(
    template: Seq<char>,
    input_port: u16,
    output_port: u16,
    api_port: u16,
    pipeline_name: Seq<char>,
    scripts_dir: Seq<char>,
    patterns_dir: Seq<char>,
) -> Seq<u8>;

/// Whether a template renders successfully against the given parameters
/// in strict mode. Like the rendering itself, success is deterministic in
/// the template and the parameters.
pub uninterp spec fn spec_render_ok(
    template: Seq<char>,
    input_port: u16,
    output_port: u16,
    api_port: u16,
    pipeline_name: Seq<char>,
    scripts_dir: Seq<char>,
    patterns_dir: Seq<char>,
) -> bool;

/// What a template renders to against a context.
pub open spec fn render_of(template: Seq<char>, ctx: RenderContext) -> Seq<u8> {
    spec_render(
        template,
        ctx.input_port,
        ctx.output_port,
        ctx.api_port,
        ctx.pipeline_name@,
        ctx.scripts_dir@,
        ctx.patterns_dir@,
    )
}

/// Whether a template renders successfully against a context.
pub open spec fn render_ok(template: Seq<char>, ctx: RenderContext) -> bool {
    spec_render_ok(
        template,
        ctx.input_port,
        ctx.output_port,
        ctx.api_port,
        ctx.pipeline_name@,
        ctx.scripts_dir@,
        ctx.patterns_dir@,
    )
}

/// Renders one template against the context, in strict mode: a template
/// placeholder that the context does not supply fails the rendering.
///
/// Relies on `handlebars::Registry::render_template`: rendering is
/// deterministic in the template text and the supplied data, and `Err`
/// comes exactly from the renderer's own failure (a syntax error or, in
/// strict mode, an unresolved parameter).
#[verifier::external_body]
pub fn render_template(template: &str, ctx: &RenderContext) -> (r: Result<Vec<u8>, String>)
    ensures
        (r is Ok) == spec_render_ok(
            template@,
            ctx.input_port,
            ctx.output_port,
            ctx.api_port,
            ctx.pipeline_name@,
            ctx.scripts_dir@,
            ctx.patterns_dir@,
        ),
        r is Ok ==> r->Ok_0@ == spec_render(
            template@,
            ctx.input_port,
            ctx.output_port,
            ctx.api_port,
            ctx.pipeline_name@,
            ctx.scripts_dir@,
            ctx.patterns_dir@,
        ),
{
    let mut hb = handlebars::Handlebars::new();
    hb.set_strict_mode(true);
    let mut m = serde_json::Map::new();
    m.insert("input_port".into(), ctx.input_port.into());
    m.insert("output_port".into(), ctx.output_port.into());
    m.insert("api_port".into(), ctx.api_port.into());
    m.insert("pipeline_name".into(), ctx.pipeline_name.clone().into());
    m.insert("scripts_dir".into(), ctx.scripts_dir.clone().into());
    m.insert("patterns_dir".into(), ctx.patterns_dir.clone().into());
    match hb.render_template(template, &m) {
        Ok(s) => Ok(s.into_bytes()),
        Err(e) => Err(e.to_string()),
    }
}

/// The archive writer: an in-memory tar encoder. Opaque to the proofs;
/// what the contracts say about it goes through [`archive_data`].
#[verifier::external_body]
pub struct ArchiveBuilder {
    inner: tar::Builder<Vec<u8>>,
}

/// The bytes written into the archive so far.
pub uninterp spec fn archive_data(b: ArchiveBuilder) -> Seq<u8>;

/// The encoding of one archive entry: a function of its name and content
/// alone, because every entry is written with fixed metadata (mode 644,
/// epoch timestamp, no owner).
pub uninterp spec fn spec_tar_entry(name: Seq<char>, data: Seq<u8>) -> Seq<u8>;

/// Whether a name can be placed in an archive entry's header. Acceptance
/// depends on the name alone (the writer looks only at the path when it
/// prepares the header), so it can be named.
pub uninterp spec fn tar_name_ok(name: Seq<char>) -> bool;

/// The end-of-archive marker: two zeroed blocks.
pub open spec fn end_of_archive() -> Seq<u8> {
    Seq::new(1024, |i: int| 0u8)
}

/// An empty archive writer over an in-memory buffer.
///
/// Relies on `tar::Builder::new`: nothing has been written yet.
#[verifier::external_body]
pub fn archive_new() -> (b: ArchiveBuilder)
    ensures
        archive_data(b) == Seq::<u8>::empty(),
{
    ArchiveBuilder { inner: tar::Builder::new(Vec::new()) }
}

/// Appends one entry with fixed metadata, so that the written bytes are a
/// function of the entry's name and content alone.
///
/// Relies on `tar::Builder::append_data`: it writes the header (with the
/// path and checksum set), the content, and zero padding to the block
/// size, and nothing else; all header fields are fixed here. Writing to
/// the in-memory buffer itself cannot fail; `Err` comes from a name the
/// header cannot carry.
#[verifier::external_body]
pub fn archive_append(b: &mut ArchiveBuilder, name: &str, data: &[u8]) -> (r: Result<
    (),
    String,
>)
    ensures
        (r is Ok) == tar_name_ok(name@),
        r is Ok ==> archive_data(*final(b)) == archive_data(*old(b)) + spec_tar_entry(
            name@,
            data@,
        ),
        r is Err ==> archive_data(*final(b)) == archive_data(*old(b)),
{
    let mut h = tar::Header::new_gnu();
    h.set_size(data.len() as u64);
    h.set_mode(0o644);
    h.set_mtime(0);
    b.inner.append_data(&mut h, name, data).map_err(|e| e.to_string())
}

/// Closes the archive and hands back its bytes: everything written, then
/// the end-of-archive marker.
///
/// Relies on `tar::Builder::into_inner`: it finishes the archive by
/// writing exactly 1024 zero bytes, then returns the buffer; writing to a
/// byte buffer never fails.
#[verifier::external_body]
pub fn archive_finish(b: ArchiveBuilder) -> (r: Result<Vec<u8>, String>)
    ensures
        r is Ok,
        r is Ok ==> r->Ok_0@ == archive_data(b) + end_of_archive(),
{
    b.inner.into_inner().map_err(|e| e.to_string())
}

/// The concatenation of a list of byte strings, in order.
pub open spec fn concat_all(parts: Seq<Seq<u8>>) -> Seq<u8>
    decreases parts,
{
    if parts.len() == 0 {
        Seq::empty()
    } else {
        concat_all(parts.drop_last()) + parts.last()
    }
}

/// The assembled pipeline definition: the rendered "input" stage, the raw
/// bytes of every rule fragment in order, the rendered "output" stage.
pub open spec fn spec_pipeline(
    input_stage: Seq<u8>,
    rules: Seq<Seq<u8>>,
    output_stage: Seq<u8>,
) -> Seq<u8> {
    input_stage + concat_all(rules) + output_stage
}

/// Appends all of `src` to `out`.
fn push_bytes(out: &mut Vec<u8>, src: &[u8])
    ensures
        final(out)@ == old(out)@ + src@,
{
    let mut i: usize = 0;
    while i < src.len()
        invariant
            i <= src@.len(),
            out@ == old(out)@ + src@.take(i as int),
        decreases src@.len() - i,
    {
        out.push(src[i]);
        proof {
            assert(old(out)@ + src@.take(i as int) + seq![src@[i as int]] =~= old(out)@
                + src@.take(i + 1));
        }
        i += 1;
    }
    proof {
        assert(src@.take(src@.len() as int) =~= src@);
    }
}

/// Assembles the pipeline definition, byte-exact: the rendered "input"
/// stage, then the bytes of each rule fragment in the given (ascending)
/// order, unmodified, then the rendered "output" stage.
pub fn assemble_pipeline(input_stage: &Vec<u8>, rules: &Vec<Vec<u8>>, output_stage: &Vec<u8>) -> (r:
    Vec<u8>)
    ensures
        r@ == spec_pipeline(input_stage@, rules.deep_view(), output_stage@),
{
    let mut out: Vec<u8> = Vec::new();
    push_bytes(&mut out, input_stage.as_slice());
    proof {
        assert(Seq::<u8>::empty() + input_stage@ =~= input_stage@);
        assert(rules.deep_view().take(0) =~= Seq::<Seq<u8>>::empty());
        assert(out@ =~= input_stage@ + concat_all(rules.deep_view().take(0)));
    }
    let mut i: usize = 0;
    while i < rules.len()
        invariant
            i <= rules@.len(),
            rules.deep_view().len() == rules@.len(),
            out@ == input_stage@ + concat_all(rules.deep_view().take(i as int)),
        decreases rules@.len() - i,
    {
        push_bytes(&mut out, rules[i].as_slice());
        proof {
            let dv = rules.deep_view();
            assert(dv[i as int] == rules@[i as int]@);
            assert(dv.take(i + 1).drop_last() =~= dv.take(i as int));
            assert(dv.take(i + 1).last() == dv[i as int]);
            assert(concat_all(dv.take(i + 1)) == concat_all(dv.take(i as int)) + dv[i as int]);
            assert(input_stage@ + concat_all(dv.take(i as int)) + dv[i as int] =~= input_stage@
                + concat_all(dv.take(i + 1)));
        }
        i += 1;
    }
    proof {
        assert(rules.deep_view().take(rules@.len() as int) =~= rules.deep_view());
    }
    push_bytes(&mut out, output_stage.as_slice());
    proof {
        assert(input_stage@ + concat_all(rules.deep_view()) + output_stage@ =~= out@);
    }
    out
}

/// One auxiliary file: its base name and its raw bytes.
pub struct NamedBytes {
    /// The file's base name.
    pub name: String,
    /// The file's content.
    pub bytes: Vec<u8>,
}

/// The archive bytes of the rendered configuration templates, in order.
pub open spec fn config_entries(templates: Seq<Template>, ctx: RenderContext) -> Seq<u8>
    decreases templates,
{
    if templates.len() == 0 {
        Seq::empty()
    } else {
        config_entries(templates.drop_last(), ctx) + spec_tar_entry(
            templates.last().name@,
            render_of(templates.last().text@, ctx),
        )
    }
}

/// The archive bytes of a list of auxiliary files, each under
/// `<prefix><base name>`, in order.
pub open spec fn files_entries(prefix: Seq<char>, files: Seq<NamedBytes>) -> Seq<u8>
    decreases files,
{
    if files.len() == 0 {
        Seq::empty()
    } else {
        files_entries(prefix, files.drop_last()) + spec_tar_entry(
            prefix + files.last().name@,
            files.last().bytes@,
        )
    }
}

/// The directory prefix `<dir>/` for entries of an auxiliary directory.
pub open spec fn spec_dir_prefix(dir: Seq<char>) -> Seq<char> {
    dir + "/"@
}

/// The name of the placeholder entry that makes an auxiliary directory
/// exist even when its file list is empty.
pub open spec fn spec_keep_name(dir: Seq<char>) -> Seq<char> {
    spec_dir_prefix(dir) + ".gitkeep"@
}

/// The whole artifact: the rendered configuration entries, the assembled
/// pipeline entry, the script files with their placeholder, the pattern
/// files with theirs, and the end-of-archive marker. A function of the
/// inputs alone.
pub open spec fn spec_artifact(
    templates: Seq<Template>,
    ctx: RenderContext,
    input_template: Seq<char>,
    output_template: Seq<char>,
    rules: Seq<Seq<u8>>,
    scripts: Seq<NamedBytes>,
    patterns: Seq<NamedBytes>,
) -> Seq<u8> {
    config_entries(templates, ctx) + spec_tar_entry(
        crate::PIPELINE_NAME@,
        spec_pipeline(render_of(input_template, ctx), rules, render_of(output_template, ctx)),
    ) + files_entries(spec_dir_prefix(crate::SCRIPTS_DIR@), scripts) + spec_tar_entry(
        spec_keep_name(crate::SCRIPTS_DIR@),
        Seq::empty(),
    ) + files_entries(spec_dir_prefix(crate::PATTERNS_DIR@), patterns) + spec_tar_entry(
        spec_keep_name(crate::PATTERNS_DIR@),
        Seq::empty(),
    ) + end_of_archive()
}

/// Every auxiliary file has a usable (non-empty) base name.
pub open spec fn aux_basenames_ok(files: Seq<NamedBytes>) -> bool {
    forall|i: int| 0 <= i < files.len() ==> (#[trigger] files[i]).name@.len() > 0
}

/// Every entry name an auxiliary directory produces — each file's
/// prefixed name and the placeholder's — fits an archive header.
pub open spec fn aux_entry_names_ok(dir: Seq<char>, files: Seq<NamedBytes>) -> bool {
    &&& (forall|i: int|
        0 <= i < files.len() ==> tar_name_ok(spec_dir_prefix(dir) + (#[trigger] files[i]).name@))
    &&& tar_name_ok(spec_keep_name(dir))
}

/// Every fixed template, and both pipeline stages, render successfully
/// against the context.
pub open spec fn renders_ok(
    templates: Seq<Template>,
    ctx: RenderContext,
    input_template: Seq<char>,
    output_template: Seq<char>,
) -> bool {
    &&& (forall|i: int| 0 <= i < templates.len() ==> render_ok((#[trigger] templates[i]).text@, ctx))
    &&& render_ok(input_template, ctx)
    &&& render_ok(output_template, ctx)
}

/// Every entry name the artifact holds fits an archive header.
pub open spec fn entry_names_ok(
    templates: Seq<Template>,
    scripts: Seq<NamedBytes>,
    patterns: Seq<NamedBytes>,
) -> bool {
    &&& (forall|i: int| 0 <= i < templates.len() ==> tar_name_ok((#[trigger] templates[i]).name@))
    &&& tar_name_ok(crate::PIPELINE_NAME@)
    &&& aux_entry_names_ok(crate::SCRIPTS_DIR@, scripts)
    &&& aux_entry_names_ok(crate::PATTERNS_DIR@, patterns)
}

/// Builds `<dir>/<name>`.
fn joined_name(dir: &str, name: &str) -> (r: String)
    ensures
        r@ == spec_dir_prefix(dir@) + name@,
{
    let mut s = dir.to_owned();
    s.append("/");
    s.append(name);
    s
}

/// Appends the files of one auxiliary directory, each under its base
/// name inside `dir`, then the placeholder entry that makes the directory
/// exist even with no files. An empty base name cannot be placed in the
/// archive and is a configuration error.
fn append_aux_files(b: &mut ArchiveBuilder, dir: &str, files: &Vec<NamedBytes>) -> (r:
    Result<(), RunError>)
    ensures
        (r is Ok) <==> (aux_basenames_ok(files@) && aux_entry_names_ok(dir@, files@)),
        r is Ok ==> archive_data(*final(b)) == archive_data(*old(b)) + files_entries(
            spec_dir_prefix(dir@),
            files@,
        ) + spec_tar_entry(spec_keep_name(dir@), Seq::empty()),
        r is Err ==> r->Err_0 is Configuration || r->Err_0 is Io,
        r is Err && r->Err_0 is Configuration ==> !aux_basenames_ok(files@),
        r is Err && r->Err_0 is Io ==> !aux_entry_names_ok(dir@, files@),
{
    let ghost start = archive_data(*b);
    let mut i: usize = 0;
    while i < files.len()
        invariant
            i <= files@.len(),
            archive_data(*b) == start + files_entries(spec_dir_prefix(dir@), files@.take(i as int)),
            forall|j: int| 0 <= j < i ==> (#[trigger] files@[j]).name@.len() > 0,
            forall|j: int|
                0 <= j < i ==> tar_name_ok(spec_dir_prefix(dir@) + (#[trigger] files@[j]).name@),
        decreases files@.len() - i,
    {
        proof {
            assert(files@.take(i as int) =~= files@.take(i + 1).drop_last());
            assert(files@.take(i + 1).last() == files@[i as int]);
        }
        let f = &files[i];
        if f.name.as_str().is_empty() {
            proof {
                assert(!aux_basenames_ok(files@));
            }
            let mut m = String::from_str("an auxiliary file for directory ");
            m.append(dir);
            m.append(" has no usable base name");
            let e = RunError::Configuration { detail: m };
            return Err(e);
        }
        let entry_name = joined_name(dir, f.name.as_str());
        match archive_append(b, entry_name.as_str(), f.bytes.as_slice()) {
            Ok(()) => {},
            Err(detail) => {
                proof {
                    assert(!tar_name_ok(spec_dir_prefix(dir@) + files@[i as int].name@));
                    assert(!aux_entry_names_ok(dir@, files@));
                }
                let e = RunError::Io { detail };
                return Err(e);
            },
        }
        proof {
            assert(start + files_entries(spec_dir_prefix(dir@), files@.take(i as int))
                + spec_tar_entry(spec_dir_prefix(dir@) + files@[i as int].name@, files@[i as int].bytes@) =~= start + files_entries(spec_dir_prefix(dir@), files@.take(i + 1)));
        }
        i += 1;
    }
    proof {
        assert(files@.take(files@.len() as int) =~= files@);
    }
    let keep = joined_name(dir, ".gitkeep");
    let empty: Vec<u8> = Vec::new();
    proof {
        assert(keep@ == spec_keep_name(dir@));
    }
    match archive_append(b, keep.as_str(), empty.as_slice()) {
        Ok(()) => {},
        Err(detail) => {
            proof {
                assert(!tar_name_ok(spec_keep_name(dir@)));
            }
            let e = RunError::Io { detail };
            return Err(e);
        },
    }
    proof {
        assert(keep@ =~= spec_keep_name(dir@));
        assert(empty@ =~= Seq::<u8>::empty());
        assert(archive_data(*b) =~= start + files_entries(spec_dir_prefix(dir@), files@)
            + spec_tar_entry(spec_keep_name(dir@), Seq::empty()));
    }
    Ok(())
}

/// Builds the deterministic image artifact.
///
/// Renders every fixed configuration template against the context and
/// adds it under its name; assembles the pipeline definition (rendered
/// "input" stage, rule fragment bytes in the given order, rendered
/// "output" stage) and adds it; adds every script and pattern file under
/// its base name in its fixed directory, with a placeholder entry so each
/// directory exists even when empty; and closes the archive with fixed
/// per-entry metadata throughout. On success the returned bytes are a
/// function of the inputs alone, so identical inputs yield byte-identical
/// artifacts. A failed rendering is a configuration error; an entry the
/// archive cannot take is an i/o error; an auxiliary file without a
/// usable base name is a configuration error.
pub fn build_image_archive(
    config: &ConfigAssets,
    pipeline: &PipelineAssets,
    ctx: &RenderContext,
    rules: &Vec<Vec<u8>>,
    scripts: &Vec<NamedBytes>,
    patterns: &Vec<NamedBytes>,
) -> (r: Result<Vec<u8>, RunError>)
    ensures
        (r is Ok) <==> (renders_ok(
            config.templates@,
            *ctx,
            pipeline.input_template@,
            pipeline.output_template@,
        ) && entry_names_ok(config.templates@, scripts@, patterns@) && aux_basenames_ok(scripts@)
            && aux_basenames_ok(patterns@)),
        r is Ok ==> r->Ok_0@ == spec_artifact(
            config.templates@,
            *ctx,
            pipeline.input_template@,
            pipeline.output_template@,
            rules.deep_view(),
            scripts@,
            patterns@,
        ),
        r is Err ==> r->Err_0 is Configuration || r->Err_0 is Io,
        r is Err && r->Err_0 is Configuration ==> !(renders_ok(
            config.templates@,
            *ctx,
            pipeline.input_template@,
            pipeline.output_template@,
        ) && aux_basenames_ok(scripts@) && aux_basenames_ok(patterns@)),
        r is Err && r->Err_0 is Io ==> !entry_names_ok(config.templates@, scripts@, patterns@),
{
    let mut b = archive_new();
    let mut i: usize = 0;
    while i < config.templates.len()
        invariant
            i <= config.templates@.len(),
            archive_data(b) == Seq::<u8>::empty() + config_entries(
                config.templates@.take(i as int),
                *ctx,
            ),
            forall|j: int|
                0 <= j < i ==> render_ok((#[trigger] config.templates@[j]).text@, *ctx),
            forall|j: int|
                0 <= j < i ==> tar_name_ok((#[trigger] config.templates@[j]).name@),
        decreases config.templates@.len() - i,
    {
        proof {
            assert(config.templates@.take(i as int) =~= config.templates@.take(i + 1).drop_last());
            assert(config.templates@.take(i + 1).last() == config.templates@[i as int]);
        }
        let t = &config.templates[i];
        let rendered = match render_template(t.text.as_str(), ctx) {
            Ok(v) => v,
            Err(detail) => {
                proof {
                    assert(!render_ok(config.templates@[i as int].text@, *ctx));
                }
                let mut m = String::from_str("rendering the configuration template ");
                m.append(t.name.as_str());
                m.append(": ");
                m.append(detail.as_str());
                let e = RunError::Configuration { detail: m };
                return Err(e);
            },
        };
        match archive_append(&mut b, t.name.as_str(), rendered.as_slice()) {
            Ok(()) => {},
            Err(detail) => {
                proof {
                    assert(!tar_name_ok(config.templates@[i as int].name@));
                }
                let e = RunError::Io { detail };
                return Err(e);
            },
        }
        i += 1;
    }
    proof {
        assert(config.templates@.take(config.templates@.len() as int) =~= config.templates@);
    }
    let input_stage = match render_template(pipeline.input_template.as_str(), ctx) {
        Ok(v) => v,
        Err(detail) => {
            proof {
                assert(!render_ok(pipeline.input_template@, *ctx));
            }
            let mut m = String::from_str("rendering the pipeline input stage: ");
            m.append(detail.as_str());
            let e = RunError::Configuration { detail: m };
            return Err(e);
        },
    };
    let output_stage = match render_template(pipeline.output_template.as_str(), ctx) {
        Ok(v) => v,
        Err(detail) => {
            proof {
                assert(!render_ok(pipeline.output_template@, *ctx));
            }
            let mut m = String::from_str("rendering the pipeline output stage: ");
            m.append(detail.as_str());
            let e = RunError::Configuration { detail: m };
            return Err(e);
        },
    };
    let assembled = assemble_pipeline(&input_stage, rules, &output_stage);
    match archive_append(&mut b, crate::PIPELINE_NAME, assembled.as_slice()) {
        Ok(()) => {},
        Err(detail) => {
            proof {
                assert(!tar_name_ok(crate::PIPELINE_NAME@));
            }
            let e = RunError::Io { detail };
            return Err(e);
        },
    }
    match append_aux_files(&mut b, crate::SCRIPTS_DIR, scripts) {
        Ok(()) => {},
        Err(e) => {
            return Err(e);
        },
    }
    match append_aux_files(&mut b, crate::PATTERNS_DIR, patterns) {
        Ok(()) => {},
        Err(e) => {
            return Err(e);
        },
    }
    match archive_finish(b) {
        Ok(bytes) => {
            proof {
                assert(bytes@ =~= spec_artifact(
                    config.templates@,
                    *ctx,
                    pipeline.input_template@,
                    pipeline.output_template@,
                    rules.deep_view(),
                    scripts@,
                    patterns@,
                ));
            }
            Ok(bytes)
        },
        Err(detail) => {
            let e = RunError::Io { detail };
            Err(e)
        },
    }
}

/// Building the artifact is deterministic: two artifacts built from
/// identical inputs are byte-identical.
pub proof fn lemma_artifact_deterministic(
    a: Seq<u8>,
    b: Seq<u8>,
    templates: Seq<Template>,
    ctx: RenderContext,
    input_template: Seq<char>,
    output_template: Seq<char>,
    rules: Seq<Seq<u8>>,
    scripts: Seq<NamedBytes>,
    patterns: Seq<NamedBytes>,
)
    requires
        a == spec_artifact(templates, ctx, input_template, output_template, rules, scripts, patterns),
        b == spec_artifact(templates, ctx, input_template, output_template, rules, scripts, patterns),
    ensures
        a == b,
{
}

} // verus!
