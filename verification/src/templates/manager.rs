//! The driver of a generation: from a document, a manifest and the options
//! of the caller to the plan of what is rendered, written and run.

use crate::builders::has_builder;
use crate::config::Config;
use crate::error::{Error, ErrorView};
use crate::json::{entries_view, Json, JsonValue, Member, texts};
use crate::manifest::{
    files_view, TemplateFile, TemplateFileView, TemplateManifest, TemplateManifestView,
};
use crate::openapi::context::{
    declared_server_url, document_operations, is_web_location, OpenApiContext,
};
use crate::openapi::model::{OpenApiOperation, operations_view, OperationView};
use crate::templates::context::{
    base_context_of, build_base_context, lemma_absolute_url_in_base_context,
    lemma_path_without_base_url_fails, members_of, merge_contexts, merged_context,
    missing_base_url_error, missing_names, missing_variables_error, operations_have_contexts,
    unknown_directive_error, validate_context,
};
use crate::templates::dereference::{dereference, dereferenced, MAX_REFERENCE_DEPTH, too_deep_error};
use crate::templates::dir::{TemplateDir, TemplateDirView};
use crate::templates::kind::{kind_name, TemplateKind};
use crate::templates::operation::{
    destination_for, lemma_operation_steps_carry_names, operation_steps, plan_operation,
};
use crate::templates::options::{
    operation_selected, opt_options, TemplateOptions, TemplateOptionsView,
};
use crate::templates::plan::{append_steps, GenerationStep, steps_view, StepView};
use crate::text::{concat, concat3, contains_text, owned};
use crate::utils::snake_case;
use vstd::prelude::*;

verus! {

/// Where the manifest of a template directory is read from.
#[derive(Debug, Clone, Copy, PartialEq, Eq, Structural)]
pub enum ManifestSource {
    /// The file `manifest.yaml`.
    Yaml,
    /// The file `manifest.toml`.
    Toml,
    /// No file: the default manifest.
    Default,
}

/// The name of the file that a manifest is read from.
pub open spec fn manifest_file_name(source: ManifestSource) -> Option<Seq<char>> {
    match source {
        ManifestSource::Yaml => Some("manifest.yaml"@),
        ManifestSource::Toml => Some("manifest.toml"@),
        ManifestSource::Default => None,
    }
}

impl ManifestSource {
    /// The name of the file that the manifest is read from.
    pub fn file_name(&self) -> (r: Option<&'static str>)
        ensures
            match r {
                Some(name) => manifest_file_name(*self) == Some(name@),
                None => manifest_file_name(*self) is None,
            },
    {
        match self {
            ManifestSource::Yaml => Some("manifest.yaml"),
            ManifestSource::Toml => Some("manifest.toml"),
            ManifestSource::Default => None,
        }
    }
}

/// Loaded templates, their manifest, and where they were found.
#[derive(Debug, PartialEq)]
pub struct TemplateManager {
    template_dir: TemplateDir,
    manifest: TemplateManifest,
    templates: Vec<String>,
}

/// The model of a [`TemplateManager`].
pub struct TemplateManagerView {
    pub template_dir: TemplateDirView,
    pub manifest: TemplateManifestView,
    /// The names of the templates that the engine has loaded.
    pub templates: Seq<Seq<char>>,
}

impl View for TemplateManager {
    type V = TemplateManagerView;

    closed spec fn view(&self) -> TemplateManagerView {
        TemplateManagerView {
            template_dir: self.template_dir@,
            manifest: self.manifest@,
            templates: texts(self.templates@),
        }
    }
}

/// Whether `names` holds `name`.
pub open spec fn names_hold(names: Seq<Seq<char>>, name: Seq<char>) -> bool {
    exists|i: int| 0 <= i < names.len() && names[i] == name
}

/// A source and a destination of the manifest.
pub struct TemplatePair {
    pub source: Seq<char>,
    pub destination: Seq<char>,
}

/// The files of the manifest whose template is loaded, in order.
pub open spec fn listed_templates(files: Seq<TemplateFileView>, loaded: Seq<Seq<char>>) -> Seq<
    TemplatePair,
>
    decreases files.len(),
{
    if files.len() == 0 {
        Seq::empty()
    } else {
        let head = listed_templates(files.drop_last(), loaded);
        if names_hold(loaded, files.last().source) {
            head.push(
                TemplatePair {
                    source: files.last().source,
                    destination: files.last().destination,
                },
            )
        } else {
            head
        }
    }
}

/// The models of a list of sources and destinations.
pub open spec fn pairs_view(v: Seq<(String, String)>) -> Seq<TemplatePair> {
    Seq::new(v.len(), |i: int| TemplatePair { source: v[i].0@, destination: v[i].1@ })
}

/// The step for a manifest entry that is rendered once.
pub open spec fn single_file_step(base: Json, file: TemplateFileView) -> StepView {
    StepView::Render {
        template: file.source,
        destination: file.destination,
        context: merged_context(base, file.context),
    }
}

/// The steps for a manifest entry that is rendered once per operation: those
/// of each operation that takes part, in the order of the document. The
/// first operation that cannot be planned fails the entry.
pub open spec fn fan_out_steps(
    base: Seq<Member>,
    doc: Json,
    file: TemplateFileView,
    ops: Seq<OperationView>,
    options: Option<TemplateOptionsView>,
) -> Result<Seq<StepView>, ErrorView>
    decreases ops.len(),
{
    if ops.len() == 0 {
        Ok(Seq::empty())
    } else {
        match fan_out_steps(base, doc, file, ops.drop_last(), options) {
            Err(e) => Err(e),
            Ok(head) => if operation_selected(options, ops.last().id) {
                match operation_steps(base, doc, file, ops.last()) {
                    Ok(steps) => Ok(head + steps),
                    Err(e) => Err(e),
                }
            } else {
                Ok(head)
            },
        }
    }
}

/// How many of the operations take part.
pub open spec fn selected_count(ops: Seq<OperationView>, options: Option<TemplateOptionsView>)
    -> nat
    decreases ops.len(),
{
    if ops.len() == 0 {
        0
    } else {
        selected_count(ops.drop_last(), options) + if operation_selected(
            options,
            ops.last().id,
        ) {
            1nat
        } else {
            0nat
        }
    }
}

/// An entry that is rendered once per operation gives two steps for each
/// operation that takes part: first the dump of its schema, then its file.
pub proof fn lemma_fan_out_shape(
    base: Seq<Member>,
    doc: Json,
    file: TemplateFileView,
    ops: Seq<OperationView>,
    options: Option<TemplateOptionsView>,
)
    requires
        fan_out_steps(base, doc, file, ops, options) is Ok,
    ensures
        ({
            let steps = fan_out_steps(base, doc, file, ops, options)->Ok_0;
            &&& steps.len() == 2 * selected_count(ops, options)
            &&& forall|k: int|
                0 <= k < selected_count(ops, options) ==> (#[trigger] steps[2 * k])
                    is WriteSchema && steps[2 * k + 1] is Render
                    && steps[2 * k + 1]->Render_template == file.source
        }),
    decreases ops.len(),
{
    if ops.len() > 0 {
        let head_ops = ops.drop_last();
        lemma_fan_out_shape(base, doc, file, head_ops, options);
        let head = fan_out_steps(base, doc, file, head_ops, options)->Ok_0;
        let steps = fan_out_steps(base, doc, file, ops, options)->Ok_0;
        let n = selected_count(head_ops, options) as int;
        assert(head.len() == 2 * n);
        if operation_selected(options, ops.last().id) {
            let own = operation_steps(base, doc, file, ops.last())->Ok_0;
            lemma_operation_steps_carry_names(base, doc, file, ops.last());
            assert(steps == head + own);
            assert(steps.len() == 2 * n + 2);
            assert(steps[2 * n] == own[0]);
            assert(steps[2 * n + 1] == own[1]);
            assert forall|k: int| 0 <= k < n + 1 implies (#[trigger] steps[2 * k]) is WriteSchema
                && steps[2 * k + 1] is Render && steps[2 * k + 1]->Render_template
                == file.source by {
                if k < n {
                    assert(steps[2 * k] == head[2 * k]);
                    assert(steps[2 * k + 1] == head[2 * k + 1]);
                }
            }
        } else {
            assert(steps == head);
        }
    }
}

proof fn lemma_fan_out_unfolds(
    base: Seq<Member>,
    doc: Json,
    file: TemplateFileView,
    ops: Seq<OperationView>,
    options: Option<TemplateOptionsView>,
)
    requires
        ops.len() > 0,
        fan_out_steps(base, doc, file, ops, options) is Ok,
    ensures
        fan_out_steps(base, doc, file, ops.drop_last(), options) is Ok,
        fan_out_steps(base, doc, file, ops.drop_last(), options)->Ok_0.len() == 2 * selected_count(
            ops.drop_last(),
            options,
        ),
        operation_selected(options, ops.last().id) ==> operation_steps(
            base,
            doc,
            file,
            ops.last(),
        ) is Ok && fan_out_steps(base, doc, file, ops, options)->Ok_0 == fan_out_steps(
            base,
            doc,
            file,
            ops.drop_last(),
            options,
        )->Ok_0 + operation_steps(base, doc, file, ops.last())->Ok_0,
        !operation_selected(options, ops.last().id) ==> fan_out_steps(
            base,
            doc,
            file,
            ops,
            options,
        ) == fan_out_steps(base, doc, file, ops.drop_last(), options),
{
    lemma_fan_out_shape(base, doc, file, ops.drop_last(), options);
}

proof fn lemma_fan_out_places(
    base: Seq<Member>,
    doc: Json,
    file: TemplateFileView,
    ops: Seq<OperationView>,
    options: Option<TemplateOptionsView>,
    i: int,
)
    requires
        fan_out_steps(base, doc, file, ops, options) is Ok,
        0 <= i < ops.len(),
        operation_selected(options, ops[i].id),
    ensures
        ({
            let steps = fan_out_steps(base, doc, file, ops, options)->Ok_0;
            let own = operation_steps(base, doc, file, ops[i]);
            let k = selected_count(ops.take(i), options) as int;
            &&& own is Ok
            &&& own->Ok_0.len() == 2
            &&& 2 * k + 1 < steps.len()
            &&& steps[2 * k] == own->Ok_0[0]
            &&& steps[2 * k + 1] == own->Ok_0[1]
        }),
    decreases ops.len(),
{
    let head_ops = ops.drop_last();
    let head = fan_out_steps(base, doc, file, head_ops, options)->Ok_0;
    let steps = fan_out_steps(base, doc, file, ops, options)->Ok_0;
    let k = selected_count(ops.take(i), options) as int;
    lemma_fan_out_unfolds(base, doc, file, ops, options);
    if i == ops.len() - 1 {
        assert(ops.take(i) =~= head_ops);
        assert(ops.last() == ops[i]);
        let own = operation_steps(base, doc, file, ops[i])->Ok_0;
        lemma_operation_steps_carry_names(base, doc, file, ops[i]);
        assert(head.len() == 2 * k);
        assert(steps == head + own);
        assert(steps[2 * k] == own[0]);
        assert(steps[2 * k + 1] == own[1]);
    } else {
        assert(head_ops[i] == ops[i]);
        assert(head_ops.take(i) =~= ops.take(i));
        lemma_fan_out_places(base, doc, file, head_ops, options, i);
        assert(2 * k + 1 < head.len());
        if operation_selected(options, ops.last().id) {
            let last = operation_steps(base, doc, file, ops.last())->Ok_0;
            assert(steps == head + last);
            assert(steps[2 * k] == head[2 * k]);
            assert(steps[2 * k + 1] == head[2 * k + 1]);
        }
    }
}

/// Each operation that takes part has its two steps in the plan of the
/// entry, behind those of the operations that take part before it: the dump
/// of its schema under its own name, then its file at the destination of
/// the entry with the name of its endpoint put in.
pub proof fn lemma_fan_out_holds_each_operation(
    base: Seq<Member>,
    doc: Json,
    file: TemplateFileView,
    ops: Seq<OperationView>,
    options: Option<TemplateOptionsView>,
    i: int,
)
    requires
        fan_out_steps(base, doc, file, ops, options) is Ok,
        0 <= i < ops.len(),
        operation_selected(options, ops[i].id),
    ensures
        ({
            let steps = fan_out_steps(base, doc, file, ops, options)->Ok_0;
            let k = selected_count(ops.take(i), options) as int;
            let name = snake_case(ops[i].id);
            &&& operation_steps(base, doc, file, ops[i]) is Ok
            &&& 2 * k + 1 < steps.len()
            &&& steps[2 * k] == operation_steps(base, doc, file, ops[i])->Ok_0[0]
            &&& steps[2 * k + 1] == operation_steps(base, doc, file, ops[i])->Ok_0[1]
            &&& steps[2 * k] is WriteSchema
            &&& steps[2 * k]->WriteSchema_destination == "schemas/"@ + name + ".json"@
            &&& steps[2 * k + 1] is Render
            &&& steps[2 * k + 1]->Render_template == file.source
            &&& steps[2 * k + 1]->Render_destination == destination_for(file.destination, name)
        }),
{
    lemma_fan_out_places(base, doc, file, ops, options, i);
    lemma_operation_steps_carry_names(base, doc, file, ops[i]);
}

/// Whether a for-each directive asks for one rendering per operation.
pub open spec fn is_fan_out(directive: Seq<char>) -> bool {
    directive == "endpoint"@ || directive == "operation"@
}

/// Whether one of the entries is rendered once per operation, so that the
/// directory for the dumps of schemas is needed.
pub open spec fn any_fan_out(files: Seq<TemplateFileView>) -> bool {
    exists|i: int|
        0 <= i < files.len() && (#[trigger] files[i]).for_each is Some && is_fan_out(
            files[i].for_each->0,
        )
}

/// The steps for one manifest entry.
pub open spec fn file_steps(
    base: Json,
    doc: Json,
    file: TemplateFileView,
    ops: Seq<OperationView>,
    options: Option<TemplateOptionsView>,
) -> Result<Seq<StepView>, ErrorView> {
    match file.for_each {
        None => Ok(seq![single_file_step(base, file)]),
        Some(directive) => if is_fan_out(directive) {
            fan_out_steps(members_of(base), doc, file, ops, options)
        } else {
            Err(unknown_directive_error(directive))
        },
    }
}

/// The steps for the entries of a manifest, entry after entry. The first
/// entry that cannot be planned fails them all.
pub open spec fn manifest_steps(
    base: Json,
    doc: Json,
    files: Seq<TemplateFileView>,
    ops: Seq<OperationView>,
    options: Option<TemplateOptionsView>,
) -> Result<Seq<StepView>, ErrorView>
    decreases files.len(),
{
    if files.len() == 0 {
        Ok(Seq::empty())
    } else {
        match manifest_steps(base, doc, files.drop_last(), ops, options) {
            Err(e) => Err(e),
            Ok(head) => match file_steps(base, doc, files.last(), ops, options) {
                Ok(steps) => Ok(head + steps),
                Err(e) => Err(e),
            },
        }
    }
}

/// The steps that run the given commands, in order.
pub open spec fn hook_steps(commands: Seq<Seq<char>>) -> Seq<StepView> {
    Seq::new(commands.len(), |i: int| StepView::RunHook { command: commands[i] })
}

/// Whether only a base URL of the caller is missing for a base context:
/// every operation has a context, the document declares only a path from
/// the root as its server URL, and the caller gave no base URL.
pub open spec fn lacks_base_url(doc: Json, base_url: Option<Seq<char>>) -> bool {
    &&& operations_have_contexts(doc)
    &&& base_url is None
    &&& declared_server_url(doc) is Some
    &&& "/"@.is_prefix_of(declared_server_url(doc)->Some_0)
}

/// The plan of a generation: the steps of the manifest entries in their
/// order, then the hooks that run after the generation. Without a base
/// context there is no plan.
pub open spec fn generation_plan(
    doc: Json,
    manifest: TemplateManifestView,
    options: Option<TemplateOptionsView>,
    base_url: Option<Seq<char>>,
) -> Result<Seq<StepView>, ErrorView> {
    match base_context_of(doc, options, base_url) {
        Err(e) => Err(e),
        Ok(base) => match manifest_steps(
            base,
            doc,
            manifest.files,
            document_operations(doc)->0,
            options,
        ) {
            Err(e) => Err(e),
            Ok(steps) => Ok(steps + hook_steps(manifest.hooks.post_generate)),
        },
    }
}

/// The plan for a manifest of one entry that is rendered once per operation
/// and one entry that is rendered once, without hooks: two steps for each
/// operation that takes part, in the order of the document, then the one
/// rendering with the base context. Nothing else is planned.
pub proof fn lemma_plan_of_two_entries(
    doc: Json,
    manifest: TemplateManifestView,
    options: Option<TemplateOptionsView>,
    base_url: Option<Seq<char>>,
)
    requires
        manifest.files.len() == 2,
        manifest.files[0].for_each is Some,
        is_fan_out(manifest.files[0].for_each->0),
        manifest.files[1].for_each is None,
        manifest.hooks.post_generate.len() == 0,
        generation_plan(doc, manifest, options, base_url) is Ok,
    ensures
        ({
            let base = base_context_of(doc, options, base_url)->Ok_0;
            let ops = document_operations(doc)->Some_0;
            let plan = generation_plan(doc, manifest, options, base_url)->Ok_0;
            let each = fan_out_steps(members_of(base), doc, manifest.files[0], ops, options);
            &&& each is Ok
            &&& plan == each->Ok_0 + seq![single_file_step(base, manifest.files[1])]
            &&& plan.len() == 2 * selected_count(ops, options) + 1
        }),
{
    let base = base_context_of(doc, options, base_url)->Ok_0;
    let ops = document_operations(doc)->Some_0;
    let files = manifest.files;
    let first = files.drop_last();
    assert(first.len() == 1);
    assert(first.last() == files[0]);
    assert(files.last() == files[1]);
    assert(first.drop_last().len() == 0);
    assert(manifest_steps(base, doc, first.drop_last(), ops, options) == Ok::<
        Seq<StepView>,
        ErrorView,
    >(Seq::empty()));
    let each = fan_out_steps(members_of(base), doc, files[0], ops, options);
    assert(file_steps(base, doc, files[0], ops, options) == each);
    assert(manifest_steps(base, doc, first, ops, options) is Ok);
    assert(each is Ok);
    assert(Seq::<StepView>::empty() + each->Ok_0 =~= each->Ok_0);
    assert(manifest_steps(base, doc, first, ops, options)->Ok_0 == each->Ok_0);
    let once = seq![single_file_step(base, files[1])];
    assert(manifest_steps(base, doc, files, ops, options)->Ok_0 == each->Ok_0 + once);
    assert(hook_steps(manifest.hooks.post_generate) =~= Seq::<StepView>::empty());
    assert(each->Ok_0 + once + Seq::<StepView>::empty() =~= each->Ok_0 + once);
    lemma_fan_out_shape(members_of(base), doc, files[0], ops, options);
}

/// The name of the file of a handler: the `endpoint` of its context with
/// `.rs` behind it; `handler.rs` where the context has no endpoint or one
/// that is no text.
pub open spec fn handler_file_name(context: Json) -> Seq<char> {
    match context.get("endpoint"@) {
        Some(Json::String(name)) => name + ".rs"@,
        _ => "handler.rs"@,
    }
}

/// The step that renders a handler for each context, in order, each to the
/// file that its context names.
pub open spec fn handler_steps(template: Seq<char>, contexts: Seq<Json>) -> Seq<StepView> {
    Seq::new(
        contexts.len(),
        |i: int|
            StepView::Render {
                template,
                destination: handler_file_name(contexts[i]),
                context: contexts[i],
            },
    )
}

/// The step that renders the module of all handlers.
pub open spec fn handlers_mod_step(endpoints: Seq<Json>, destination: Seq<char>) -> StepView {
    StepView::Render {
        template: "handlers_mod.rs"@,
        destination,
        context: Json::Object(seq![Member { key: "endpoints"@, value: Json::Array(endpoints) }]),
    }
}

/// Whether `outcome` is what a generation gives for the inputs.
pub open spec fn is_outcome_of(
    outcome: Result<Seq<StepView>, ErrorView>,
    doc: Json,
    manifest: TemplateManifestView,
    options: Option<TemplateOptionsView>,
    base_url: Option<Seq<char>>,
) -> bool {
    outcome == generation_plan(doc, manifest, options, base_url)
}

/// A generation that is run twice on the same inputs gives the same plan
/// twice, step for step, or fails twice in the same way.
pub proof fn lemma_generation_is_repeatable(
    first: Result<Seq<StepView>, ErrorView>,
    second: Result<Seq<StepView>, ErrorView>,
    doc: Json,
    manifest: TemplateManifestView,
    options: Option<TemplateOptionsView>,
    base_url: Option<Seq<char>>,
)
    requires
        is_outcome_of(first, doc, manifest, options, base_url),
        is_outcome_of(second, doc, manifest, options, base_url),
    ensures
        first == second,
{
}

/// The error for a template that the engine could not render.
pub open spec fn render_error(template: Seq<char>, diagnostic: Seq<char>, keys: Seq<char>)
    -> ErrorView {
    ErrorView::Template(
        "Failed to render template '"@ + template + "': "@ + diagnostic
            + "\nAvailable context keys: "@ + keys,
    )
}

/// The error for a hook that ended in failure.
pub open spec fn hook_error(
    command: Seq<char>,
    status: Seq<char>,
    stderr: Seq<char>,
    stdout: Seq<char>,
) -> ErrorView {
    ErrorView::Io(
        "Post-generation hook '"@ + command + "' failed with status "@ + status + "\n"@ + stderr
            + stdout,
    )
}

/// The keys of the members, in order.
pub open spec fn keys_of(members: Seq<Member>) -> Seq<Seq<char>> {
    Seq::new(members.len(), |i: int| members[i].key)
}

proof fn lemma_fan_out_fails(
    base: Seq<Member>,
    doc: Json,
    file: TemplateFileView,
    ops: Seq<OperationView>,
    options: Option<TemplateOptionsView>,
    k: int,
)
    requires
        0 <= k <= ops.len(),
        fan_out_steps(base, doc, file, ops.take(k), options) is Err,
    ensures
        fan_out_steps(base, doc, file, ops, options) == fan_out_steps(
            base,
            doc,
            file,
            ops.take(k),
            options,
        ),
    decreases ops.len() - k,
{
    if k < ops.len() {
        assert(ops.take(k + 1).drop_last() =~= ops.take(k));
        lemma_fan_out_fails(base, doc, file, ops, options, k + 1);
    } else {
        assert(ops.take(k) =~= ops);
    }
}

proof fn lemma_manifest_steps_fail(
    base: Json,
    doc: Json,
    files: Seq<TemplateFileView>,
    ops: Seq<OperationView>,
    options: Option<TemplateOptionsView>,
    k: int,
)
    requires
        0 <= k <= files.len(),
        manifest_steps(base, doc, files.take(k), ops, options) is Err,
    ensures
        manifest_steps(base, doc, files, ops, options) == manifest_steps(
            base,
            doc,
            files.take(k),
            ops,
            options,
        ),
    decreases files.len() - k,
{
    if k < files.len() {
        assert(files.take(k + 1).drop_last() =~= files.take(k));
        lemma_manifest_steps_fail(base, doc, files, ops, options, k + 1);
    } else {
        assert(files.take(k) =~= files);
    }
}

impl TemplateManager {
    /// A manager of the templates that were loaded from a directory.
    pub fn new(template_dir: TemplateDir, manifest: TemplateManifest, templates: Vec<String>) -> (r:
        TemplateManager)
        ensures
            r@ == (TemplateManagerView {
                template_dir: template_dir@,
                manifest: manifest@,
                templates: texts(templates@),
            }),
    {
        TemplateManager { template_dir, manifest, templates }
    }

    /// The template directory for a directory that the caller named. Where
    /// the last part of the directory is the identifier of the kind, the
    /// directory is that of the kind and its parent holds all templates.
    /// Otherwise the directory holds all templates, and `joined`, the
    /// directory with the identifier of the kind behind it, is that of the
    /// kind.
    pub fn locate(
        kind: TemplateKind,
        dir: &str,
        file_name: Option<&str>,
        parent: &str,
        joined: &str,
    ) -> (r: TemplateDir)
        ensures
            r@ == if file_name is Some && file_name->0@ == kind_name(kind) {
                TemplateDirView { root_dir: parent@, template_path: dir@, kind }
            } else {
                TemplateDirView { root_dir: dir@, template_path: joined@, kind }
            },
    {
        let named = match file_name {
            Some(name) => crate::text::str_eq(name, kind.as_str()),
            None => false,
        };
        if named {
            TemplateDir::new(owned(parent), owned(dir), kind)
        } else {
            TemplateDir::new(owned(dir), owned(joined), kind)
        }
    }

    /// Where the manifest is read from: the YAML file where it exists, else
    /// the TOML file where it exists, else nowhere.
    pub fn manifest_source(yaml_exists: bool, toml_exists: bool) -> (r: ManifestSource)
        ensures
            r == if yaml_exists {
                ManifestSource::Yaml
            } else if toml_exists {
                ManifestSource::Toml
            } else {
                ManifestSource::Default
            },
    {
        if yaml_exists {
            ManifestSource::Yaml
        } else if toml_exists {
            ManifestSource::Toml
        } else {
            ManifestSource::Default
        }
    }

    /// The pattern that matches every file below a template directory.
    pub fn template_glob(template_path: &str) -> (r: String)
        ensures
            r@ == template_path@ + "/**/*"@,
    {
        concat(template_path, "/**/*")
    }

    /// The kind of the templates.
    pub fn template_kind(&self) -> (r: TemplateKind)
        ensures
            r == self@.template_dir.kind,
    {
        self.template_dir.kind()
    }

    /// The directory of the templates.
    pub fn template_dir(&self) -> (r: &TemplateDir)
        ensures
            r@ == self@.template_dir,
    {
        &self.template_dir
    }

    /// The path of the directory of the templates.
    pub fn template_dir_path(&self) -> (r: &str)
        ensures
            r@ == self@.template_dir.template_path,
    {
        self.template_dir.template_path()
    }

    /// The manifest of the templates.
    pub fn manifest(&self) -> (r: &TemplateManifest)
        ensures
            r@ == self@.manifest,
    {
        &self.manifest
    }

    /// Whether a template of the given name is loaded.
    pub fn has_template(&self, name: &str) -> (r: bool)
        ensures
            r == names_hold(self@.templates, name@),
    {
        let found = contains_text(&self.templates, name);
        proof {
            let names = texts(self.templates@);
            if found {
                let i = choose|i: int|
                    0 <= i < self.templates@.len() && self.templates@[i]@ == name@;
                assert(names[i] == name@);
            }
            if names_hold(names, name@) {
                let i = choose|i: int| 0 <= i < names.len() && names[i] == name@;
                assert(self.templates@[i]@ == name@);
            }
        }
        found
    }

    /// The sources and destinations of the manifest whose template is
    /// loaded.
    pub fn list_templates(&self) -> (r: Vec<(String, String)>)
        ensures
            pairs_view(r@) == listed_templates(self@.manifest.files, self@.templates),
    {
        let ghost all = files_view(self.manifest.files@);
        let mut out: Vec<(String, String)> = Vec::new();
        let mut i: usize = 0;
        assert(pairs_view(out@) =~= Seq::<TemplatePair>::empty());
        while i < self.manifest.files.len()
            invariant
                i <= self.manifest.files.len(),
                all == files_view(self.manifest.files@),
                pairs_view(out@) == listed_templates(all.take(i as int), self@.templates),
            decreases self.manifest.files.len() - i,
        {
            proof {
                assert(all.take(i as int + 1).drop_last() =~= all.take(i as int));
                assert(all.take(i as int + 1).last() == self.manifest.files@[i as int]@);
            }
            let ghost before = pairs_view(out@);
            let file = &self.manifest.files[i];
            if self.has_template(file.source.as_str()) {
                out.push((file.source.clone(), file.destination.clone()));
                assert(pairs_view(out@) =~= before.push(
                    TemplatePair { source: file@.source, destination: file@.destination },
                ));
            }
            i += 1;
        }
        assert(all.take(self.manifest.files@.len() as int) =~= all);
        out
    }

    /// Whether the manifest has an entry that is rendered once per operation,
    /// so that the directory for the dumps of schemas is needed.
    pub fn writes_schemas(&self) -> (r: bool)
        ensures
            r == any_fan_out(self@.manifest.files),
    {
        let ghost all = files_view(self.manifest.files@);
        let mut i: usize = 0;
        while i < self.manifest.files.len()
            invariant
                i <= self.manifest.files.len(),
                all == files_view(self.manifest.files@),
                all == self@.manifest.files,
                forall|k: int|
                    0 <= k < i ==> !((#[trigger] all[k]).for_each is Some && is_fan_out(
                        all[k].for_each->0,
                    )),
            decreases self.manifest.files.len() - i,
        {
            match &self.manifest.files[i].for_each {
                Some(directive) => {
                    if crate::text::str_eq(directive.as_str(), "endpoint") || crate::text::str_eq(
                        directive.as_str(),
                        "operation",
                    ) {
                        assert(all[i as int].for_each is Some && is_fan_out(
                            all[i as int].for_each->0,
                        ));
                        return true;
                    }
                },
                None => {},
            }
            i += 1;
        }
        false
    }

    /// Templates are loaded once; there is nothing to load again.
    pub fn reload_templates(&self) -> (r: Result<(), Error>)
        ensures
            r is Ok,
    {
        Ok(())
    }

    /// Checks that a context holds every required name.
    pub fn validate_context(
        template: &str,
        context: &Vec<(String, JsonValue)>,
        required_vars: &Vec<&str>,
    ) -> (r: Result<(), Error>)
        ensures
            match r {
                Ok(_) => missing_names(
                    entries_view(context@),
                    crate::openapi::fields::names_view(required_vars@),
                ).len() == 0,
                Err(e) => missing_names(
                    entries_view(context@),
                    crate::openapi::fields::names_view(required_vars@),
                ).len() > 0 && e@ == missing_variables_error(
                    template@,
                    missing_names(
                        entries_view(context@),
                        crate::openapi::fields::names_view(required_vars@),
                    ),
                ),
            },
    {
        validate_context(template, context, required_vars)
    }

    /// The context of one file: the values that its manifest entry gives,
    /// and those of the base context for every other key.
    pub fn create_file_context(&self, base_context: &JsonValue, file: &TemplateFile) -> (r: Result<
        JsonValue,
        Error,
    >)
        ensures
            r is Ok,
            r->Ok_0@ == merged_context(base_context@, file@.context),
    {
        Ok(merge_contexts(base_context, &file.context))
    }

    /// The step for a template that is rendered with a context of the
    /// caller. The context must be an object and the template must be
    /// loaded.
    pub fn generate_with_context(&self, template_name: &str, context: &JsonValue, output_path: &str)
        -> (r: Result<GenerationStep, Error>)
        ensures
            match r {
                Ok(step) => context@ is Object && names_hold(self@.templates, template_name@)
                    && step@ == (StepView::Render {
                    template: template_name@,
                    destination: output_path@,
                    context: context@,
                }),
                Err(e) => if !(context@ is Object) {
                    e@ == ErrorView::Template("Context must be a JSON object"@)
                } else {
                    !names_hold(self@.templates, template_name@) && e@ == ErrorView::Template(
                        "Template not found: "@ + template_name@,
                    )
                },
            },
    {
        if context.as_object().is_none() {
            return Err(Error::template("Context must be a JSON object"));
        }
        if !self.has_template(template_name) {
            return Err(Error::Template(concat("Template not found: ", template_name)));
        }
        Ok(
            GenerationStep::Render {
                template: owned(template_name),
                destination: owned(output_path),
                context: context.clone(),
            },
        )
    }

    /// The step for a handler file; see [`TemplateManager::generate_with_context`].
    pub fn generate_handler(&self, template_name: &str, context: &JsonValue, output_path: &str)
        -> (r: Result<GenerationStep, Error>)
        ensures
            match r {
                Ok(step) => context@ is Object && names_hold(self@.templates, template_name@)
                    && step@ == (StepView::Render {
                    template: template_name@,
                    destination: output_path@,
                    context: context@,
                }),
                Err(e) => if !(context@ is Object) {
                    e@ == ErrorView::Template("Context must be a JSON object"@)
                } else {
                    !names_hold(self@.templates, template_name@) && e@ == ErrorView::Template(
                        "Template not found: "@ + template_name@,
                    )
                },
            },
    {
        self.generate_with_context(template_name, context, output_path)
    }

    /// The steps that render a handler for each context, each to the file
    /// that its context names.
    pub fn generate_handlers(&self, template_name: &str, contexts: &Vec<JsonValue>) -> (r: Vec<
        GenerationStep,
    >)
        ensures
            steps_view(r@) == handler_steps(template_name@, crate::json::items_view(contexts@)),
    {
        let mut out: Vec<GenerationStep> = Vec::new();
        let mut i: usize = 0;
        while i < contexts.len()
            invariant
                i <= contexts.len(),
                out@.len() == i,
                forall|k: int|
                    0 <= k < i ==> out@[k]@ == (StepView::Render {
                        template: template_name@,
                        destination: handler_file_name(contexts@[k]@),
                        context: contexts@[k]@,
                    }),
            decreases contexts.len() - i,
        {
            let context = &contexts[i];
            let destination = match context.get("endpoint") {
                Some(v) => match v.as_str() {
                    Some(name) => concat(name, ".rs"),
                    None => owned("handler.rs"),
                },
                None => owned("handler.rs"),
            };
            out.push(
                GenerationStep::Render {
                    template: owned(template_name),
                    destination,
                    context: context.clone(),
                },
            );
            i += 1;
        }
        assert(steps_view(out@) =~= handler_steps(
            template_name@,
            crate::json::items_view(contexts@),
        ));
        out
    }

    /// The step that renders the module of all handlers.
    pub fn generate_handlers_mod(&self, endpoints: &Vec<JsonValue>, output_path: &str) -> (r:
        GenerationStep)
        ensures
            r@ == handlers_mod_step(crate::json::items_view(endpoints@), output_path@),
    {
        let mut entries: Vec<(String, JsonValue)> = Vec::new();
        entries.push(
            crate::json::member("endpoints", JsonValue::array(crate::json::clone_items(endpoints))),
        );
        let context = JsonValue::object(entries);
        assert(context@->Object_0 =~= seq![
            Member { key: "endpoints"@, value: Json::Array(crate::json::items_view(endpoints@)) },
        ]);
        GenerationStep::Render {
            template: owned("handlers_mod.rs"),
            destination: owned(output_path),
            context,
        }
    }

    /// The step for a manifest entry that is rendered once.
    pub fn process_single_file(&self, file: &TemplateFile, base_context: &JsonValue) -> (r:
        GenerationStep)
        ensures
            r@ == single_file_step(base_context@, file@),
    {
        GenerationStep::Render {
            template: file.source.clone(),
            destination: file.destination.clone(),
            context: merge_contexts(base_context, &file.context),
        }
    }

    /// The steps for a manifest entry that is rendered once per operation.
    /// The kind of the templates must be one that contexts can be built for.
    pub fn process_operation_file(
        &self,
        file: &TemplateFile,
        base_context: &JsonValue,
        operations: &Vec<OpenApiOperation>,
        template_opts: &Option<TemplateOptions>,
        spec: &OpenApiContext,
    ) -> (r: Result<Vec<GenerationStep>, Error>)
        requires
            has_builder(self@.template_dir.kind),
        ensures
            match r {
                Ok(steps) => fan_out_steps(
                    members_of(base_context@),
                    spec@,
                    file@,
                    operations_view(operations@),
                    opt_options(*template_opts),
                ) == Ok::<Seq<StepView>, ErrorView>(steps_view(steps@)),
                Err(e) => fan_out_steps(
                    members_of(base_context@),
                    spec@,
                    file@,
                    operations_view(operations@),
                    opt_options(*template_opts),
                ) == Err::<Seq<StepView>, ErrorView>(e@),
            },
    {
        let empty: Vec<(String, JsonValue)> = Vec::new();
        assert(entries_view(empty@) =~= Seq::<Member>::empty());
        let base: &Vec<(String, JsonValue)> = match base_context.as_object() {
            Some(m) => m,
            None => &empty,
        };
        let ghost all = operations_view(operations@);
        let ghost options = opt_options(*template_opts);
        let mut out: Vec<GenerationStep> = Vec::new();
        let mut i: usize = 0;
        assert(steps_view(out@) =~= Seq::<StepView>::empty());
        while i < operations.len()
            invariant
                i <= operations.len(),
                all == operations_view(operations@),
                options == opt_options(*template_opts),
                has_builder(self@.template_dir.kind),
                entries_view(base@) == members_of(base_context@),
                fan_out_steps(entries_view(base@), spec@, file@, all.take(i as int), options)
                    == Ok::<Seq<StepView>, ErrorView>(steps_view(out@)),
            decreases operations.len() - i,
        {
            proof {
                assert(all.take(i as int + 1).drop_last() =~= all.take(i as int));
                assert(all.take(i as int + 1).last() == operations@[i as int]@);
            }
            let op = &operations[i];
            if TemplateOptions::selects(template_opts, op.id.as_str()) {
                match plan_operation(self.template_kind(), base, spec, file, op) {
                    Ok(steps) => {
                        append_steps(&mut out, steps);
                    },
                    Err(e) => {
                        proof {
                            lemma_fan_out_fails(
                                entries_view(base@),
                                spec@,
                                file@,
                                all,
                                options,
                                i as int + 1,
                            );
                        }
                        return Err(e);
                    },
                }
            }
            i += 1;
        }
        assert(all.take(operations@.len() as int) =~= all);
        Ok(out)
    }

    /// Builds the base context of a document and gives it together with the
    /// operations of the document. The kind of the templates must be one
    /// that contexts can be built for.
    ///
    /// Where every operation has a context and the document declares an
    /// absolute server URL, there is a base context, with or without a base
    /// URL in the settings, and it holds the declared URL unchanged.
    pub fn build_context(
        &self,
        openapi_context: &OpenApiContext,
        template_opts: &Option<TemplateOptions>,
        config: &Config,
    ) -> (r: Result<(JsonValue, Vec<OpenApiOperation>), Error>)
        requires
            has_builder(self@.template_dir.kind),
        ensures
            match r {
                Ok(found) => base_context_of(
                    openapi_context@,
                    opt_options(*template_opts),
                    config@.base_url,
                ) == Ok::<Json, ErrorView>(found.0@) && document_operations(openapi_context@)
                    == Some(operations_view(found.1@)),
                Err(e) => base_context_of(
                    openapi_context@,
                    opt_options(*template_opts),
                    config@.base_url,
                ) == Err::<Json, ErrorView>(e@),
            },
            operations_have_contexts(openapi_context@) && declared_server_url(
                openapi_context@,
            ) is Some && is_web_location(declared_server_url(openapi_context@)->Some_0) ==> r is Ok
                && r->Ok_0.0@.get("base_api_url"@) == Some(
                Json::String(declared_server_url(openapi_context@)->Some_0),
            ),
    {
        proof {
            let doc = openapi_context@;
            if operations_have_contexts(doc) && declared_server_url(doc) is Some
                && is_web_location(declared_server_url(doc)->Some_0) {
                lemma_absolute_url_in_base_context(
                    doc,
                    opt_options(*template_opts),
                    config@.base_url,
                    declared_server_url(doc)->Some_0,
                );
            }
        }
        let base_url: Option<&str> = match &config.base_url {
            Some(b) => Some(b.as_str()),
            None => None,
        };
        build_base_context(self.template_kind(), openapi_context, template_opts, base_url)
    }

    /// Replaces every reference in `value` by the schema of the document
    /// that it names. A document whose references nest too deeply is
    /// refused, and `value` is left as it is.
    pub fn dereference_schema_refs(value: &mut JsonValue, spec: &OpenApiContext) -> (r: Result<
        (),
        Error,
    >)
        ensures
            match r {
                Ok(_) => dereferenced(spec@, old(value)@, MAX_REFERENCE_DEPTH as nat) == Some(
                    final(value)@,
                ),
                Err(e) => dereferenced(spec@, old(value)@, MAX_REFERENCE_DEPTH as nat) is None
                    && e@ == too_deep_error() && final(value)@ == old(value)@,
            },
    {
        match dereference(value, spec, MAX_REFERENCE_DEPTH) {
            Ok(v) => {
                *value = v;
                Ok(())
            },
            Err(e) => Err(e),
        }
    }

    /// The steps that run the hooks after a generation, in their order.
    pub fn execute_post_generation_hooks(&self) -> (r: Vec<GenerationStep>)
        ensures
            steps_view(r@) == hook_steps(self@.manifest.hooks.post_generate),
    {
        let commands = &self.manifest.hooks.post_generate;
        let mut out: Vec<GenerationStep> = Vec::new();
        let mut i: usize = 0;
        while i < commands.len()
            invariant
                i <= commands.len(),
                out@.len() == i,
                forall|k: int|
                    0 <= k < i ==> out@[k]@ == (StepView::RunHook { command: commands@[k]@ }),
            decreases commands.len() - i,
        {
            out.push(GenerationStep::RunHook { command: commands[i].clone() });
            i += 1;
        }
        assert(steps_view(out@) =~= hook_steps(self@.manifest.hooks.post_generate));
        out
    }

    /// Plans a generation: what is rendered and written for each entry of
    /// the manifest, in its order, and the hooks that run afterwards.
    ///
    /// Nothing is planned where the document has no paths, an operation has
    /// no context, the base URL of the API cannot be told, or an entry asks
    /// for an unknown kind of repetition. The kind of the templates must be
    /// one that contexts can be built for.
    ///
    /// Where every operation has a context, the document declares only a
    /// path from the root as its server URL and the settings hold no base
    /// URL, the outcome is the error that names the missing base URL.
    pub fn generate(
        &self,
        spec: &OpenApiContext,
        config: &Config,
        template_opts: Option<TemplateOptions>,
    ) -> (r: Result<Vec<GenerationStep>, Error>)
        requires
            has_builder(self@.template_dir.kind),
        ensures
            match r {
                Ok(steps) => generation_plan(
                    spec@,
                    self@.manifest,
                    opt_options(template_opts),
                    config@.base_url,
                ) == Ok::<Seq<StepView>, ErrorView>(steps_view(steps@)),
                Err(e) => generation_plan(
                    spec@,
                    self@.manifest,
                    opt_options(template_opts),
                    config@.base_url,
                ) == Err::<Seq<StepView>, ErrorView>(e@),
            },
            lacks_base_url(spec@, config@.base_url) ==> r is Err && r->Err_0@
                == missing_base_url_error(declared_server_url(spec@)->Some_0),
    {
        proof {
            if lacks_base_url(spec@, config@.base_url) {
                lemma_path_without_base_url_fails(
                    spec@,
                    opt_options(template_opts),
                    declared_server_url(spec@)->Some_0,
                );
            }
        }
        let (base_context, operations) = match self.build_context(spec, &template_opts, config) {
            Ok(found) => found,
            Err(e) => return Err(e),
        };
        assert(!lacks_base_url(spec@, config@.base_url));
        let ghost files = files_view(self.manifest.files@);
        let ghost ops = operations_view(operations@);
        let ghost options = opt_options(template_opts);
        let mut out: Vec<GenerationStep> = Vec::new();
        let mut i: usize = 0;
        assert(steps_view(out@) =~= Seq::<StepView>::empty());
        while i < self.manifest.files.len()
            invariant
                i <= self.manifest.files.len(),
                files == files_view(self.manifest.files@),
                files == self@.manifest.files,
                has_builder(self@.template_dir.kind),
                !lacks_base_url(spec@, config@.base_url),
                ops == operations_view(operations@),
                options == opt_options(template_opts),
                document_operations(spec@) == Some(ops),
                base_context_of(spec@, options, config@.base_url) == Ok::<Json, ErrorView>(
                    base_context@,
                ),
                manifest_steps(base_context@, spec@, files.take(i as int), ops, options) == Ok::<
                    Seq<StepView>,
                    ErrorView,
                >(steps_view(out@)),
            decreases self.manifest.files.len() - i,
        {
            proof {
                assert(files.take(i as int + 1).drop_last() =~= files.take(i as int));
                assert(files.take(i as int + 1).last() == self.manifest.files@[i as int]@);
            }
            let file = &self.manifest.files[i];
            match &file.for_each {
                Some(directive) => {
                    if crate::text::str_eq(directive.as_str(), "endpoint") || crate::text::str_eq(
                        directive.as_str(),
                        "operation",
                    ) {
                        match self.process_operation_file(
                            file,
                            &base_context,
                            &operations,
                            &template_opts,
                            spec,
                        ) {
                            Ok(steps) => {
                                append_steps(&mut out, steps);
                            },
                            Err(e) => {
                                proof {
                                    lemma_manifest_steps_fail(
                                        base_context@,
                                        spec@,
                                        files,
                                        ops,
                                        options,
                                        i as int + 1,
                                    );
                                }
                                return Err(e);
                            },
                        }
                    } else {
                        proof {
                            lemma_manifest_steps_fail(
                                base_context@,
                                spec@,
                                files,
                                ops,
                                options,
                                i as int + 1,
                            );
                        }
                        return Err(
                            Error::Config(
                                concat("Unknown for_each directive: ", directive.as_str()),
                            ),
                        );
                    }
                },
                None => {
                    let ghost before = steps_view(out@);
                    let step = self.process_single_file(file, &base_context);
                    let ghost sv = step@;
                    out.push(step);
                    assert(steps_view(out@) =~= before + seq![sv]);
                },
            }
            i += 1;
        }
        assert(files.take(self.manifest.files@.len() as int) =~= files);
        let hooks = self.execute_post_generation_hooks();
        append_steps(&mut out, hooks);
        Ok(out)
    }

    /// The error for a template that the engine could not render: it names
    /// the template, gives the diagnostic of the engine, and lists the keys
    /// of the context.
    pub fn render_failure(template_name: &str, diagnostic: &str, context: &JsonValue) -> (r: Error)
        ensures
            r@ == render_error(
                template_name@,
                diagnostic@,
                crate::text::join(keys_of(members_of(context@)), ", "@),
            ),
    {
        let mut keys: Vec<Vec<char>> = Vec::new();
        match context.as_object() {
            Some(members) => {
                let mut i: usize = 0;
                while i < members.len()
                    invariant
                        i <= members.len(),
                        keys@.len() == i,
                        forall|k: int| 0 <= k < i ==> keys@[k]@ == entries_view(members@)[k].key,
                    decreases members.len() - i,
                {
                    keys.push(crate::text::to_chars(members[i].0.as_str()));
                    i += 1;
                }
            },
            None => {},
        }
        assert(crate::text::parts_view(keys@) =~= keys_of(members_of(context@)));
        let listed = crate::text::from_chars(
            &crate::text::chars_join(&keys, &crate::text::to_chars(", ")),
        );
        let head = concat3("Failed to render template '", template_name, "': ");
        let middle = concat3(head.as_str(), diagnostic, "\nAvailable context keys: ");
        Error::Template(concat(middle.as_str(), listed.as_str()))
    }

    /// The error for a hook that ended in failure: it names the command and
    /// its status and gives what the command printed.
    pub fn hook_failure(command: &str, status: &str, stderr: &str, stdout: &str) -> (r: Error)
        ensures
            r@ == hook_error(command@, status@, stderr@, stdout@),
    {
        let head = concat3("Post-generation hook '", command, "' failed with status ");
        let middle = concat3(head.as_str(), status, "\n");
        Error::Io(concat3(middle.as_str(), stderr, stdout))
    }
}

} // verus!
