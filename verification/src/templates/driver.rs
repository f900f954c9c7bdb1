//! The run of a generation as a state machine.
//!
//! The library decides and the caller acts. In each state the machine names
//! the one thing that the caller has to do next; the caller does it and
//! reports what came of it; the machine moves on. Any failure that the
//! caller reports, and any that the library finds, ends the run in
//! `Failed`, with the error that says why.

use crate::builders::has_builder;
use crate::config::{Config, ConfigView};
use crate::error::{Error, ErrorView};
use crate::json::{Json, JsonValue, opt_json, texts};
use crate::manifest::{default_manifest, manifest_of, TemplateManifest, TemplateManifestView};
use crate::openapi::context::OpenApiContext;
use crate::templates::dir::{
    DirProbe, DirProbeView, discovered, probes_view, TemplateDir, TemplateDirView,
};
use crate::templates::kind::{kind_name, TemplateKind};
use crate::templates::manager::{any_fan_out, generation_plan, TemplateManager, TemplateManagerView};
use crate::templates::options::{opt_options, TemplateOptions, TemplateOptionsView};
use crate::templates::plan::{GenerationStep, steps_view, StepView};
use crate::text::owned;
use vstd::prelude::*;

verus! {

/// Where a run stands.
#[derive(Debug, PartialEq)]
pub enum DriverState {
    /// Nothing is known but the kind of template.
    Uninitialized { kind: TemplateKind },
    /// The template directory is known.
    DirectoryResolved { dir: TemplateDir },
    /// The manifest is known.
    ManifestLoaded { dir: TemplateDir, manifest: TemplateManifest },
    /// The templates are compiled; the document is awaited.
    TemplatesLoaded { manager: TemplateManager },
    /// The generation is planned; nothing is written yet.
    Ready { steps: Vec<GenerationStep>, schemas: bool },
    /// Files are being rendered and written; step `next` is due.
    Generating { steps: Vec<GenerationStep>, next: usize },
    /// The hooks after the generation are being run; step `next` is due.
    PostHooksRun { steps: Vec<GenerationStep>, next: usize },
    /// Everything was done.
    Done,
    /// The run failed.
    Failed { error: Error },
}

/// What the caller reports.
#[derive(Debug, PartialEq)]
pub enum DriverEvent {
    /// The caller named a template directory: `file_name` is its last part,
    /// `parent` the directory above it, `joined` the directory of the kind
    /// in it.
    DirectoryGiven { dir: String, file_name: Option<String>, parent: String, joined: String },
    /// The standard places were looked at, in their order.
    PlacesProbed { places: Vec<DirProbe> },
    /// The manifest file was read and parsed; no document where there is no
    /// manifest file.
    ManifestRead { document: Option<JsonValue> },
    /// The templates were compiled; these are their names.
    TemplatesCompiled { names: Vec<String> },
    /// The document and the settings of the generation are there.
    DocumentLoaded { spec: OpenApiContext, config: Config, options: Option<TemplateOptions> },
    /// The output directory exists.
    OutputPrepared,
    /// The step that was due is done.
    StepDone,
    /// What was to be done could not be done.
    Failure { error: Error },
}

/// What the caller has to do next.
#[derive(Debug, PartialEq)]
pub enum DriverAction {
    /// Find the template directory of the kind.
    ResolveDirectory { kind: TemplateKind },
    /// Read the manifest of the template directory.
    LoadManifest { template_path: String },
    /// Compile every template that the pattern matches.
    CompileTemplates { pattern: String },
    /// Load the document to generate from.
    LoadDocument,
    /// Create the output directory, and in it the directory for the dumps
    /// of schemas where `schemas` says so.
    PrepareOutput { schemas: bool },
    /// Carry out the step.
    Perform { step: GenerationStep },
    /// Nothing: the run is over.
    Finish,
    /// Nothing: the run has failed with the error.
    Abort { error: Error },
}

/// The model of a [`DriverState`].
pub enum DriverStateView {
    Uninitialized { kind: TemplateKind },
    DirectoryResolved { dir: TemplateDirView },
    ManifestLoaded { dir: TemplateDirView, manifest: TemplateManifestView },
    TemplatesLoaded { manager: TemplateManagerView },
    Ready { steps: Seq<StepView>, schemas: bool },
    Generating { steps: Seq<StepView>, next: nat },
    PostHooksRun { steps: Seq<StepView>, next: nat },
    Done,
    Failed { error: ErrorView },
}

/// The model of a [`DriverEvent`].
pub enum DriverEventView {
    DirectoryGiven {
        dir: Seq<char>,
        file_name: Option<Seq<char>>,
        parent: Seq<char>,
        joined: Seq<char>,
    },
    PlacesProbed { places: Seq<DirProbeView> },
    ManifestRead { document: Option<Json> },
    TemplatesCompiled { names: Seq<Seq<char>> },
    DocumentLoaded { spec: Json, config: ConfigView, options: Option<TemplateOptionsView> },
    OutputPrepared,
    StepDone,
    Failure { error: ErrorView },
}

/// The model of a [`DriverAction`].
pub enum DriverActionView {
    ResolveDirectory { kind: TemplateKind },
    LoadManifest { template_path: Seq<char> },
    CompileTemplates { pattern: Seq<char> },
    LoadDocument,
    PrepareOutput { schemas: bool },
    Perform { step: StepView },
    Finish,
    Abort { error: ErrorView },
}

impl View for DriverState {
    type V = DriverStateView;

    open spec fn view(&self) -> DriverStateView {
        match self {
            DriverState::Uninitialized { kind } => DriverStateView::Uninitialized { kind: *kind },
            DriverState::DirectoryResolved { dir } => DriverStateView::DirectoryResolved {
                dir: dir@,
            },
            DriverState::ManifestLoaded { dir, manifest } => DriverStateView::ManifestLoaded {
                dir: dir@,
                manifest: manifest@,
            },
            DriverState::TemplatesLoaded { manager } => DriverStateView::TemplatesLoaded {
                manager: manager@,
            },
            DriverState::Ready { steps, schemas } => DriverStateView::Ready {
                steps: steps_view(steps@),
                schemas: *schemas,
            },
            DriverState::Generating { steps, next } => DriverStateView::Generating {
                steps: steps_view(steps@),
                next: *next as nat,
            },
            DriverState::PostHooksRun { steps, next } => DriverStateView::PostHooksRun {
                steps: steps_view(steps@),
                next: *next as nat,
            },
            DriverState::Done => DriverStateView::Done,
            DriverState::Failed { error } => DriverStateView::Failed { error: error@ },
        }
    }
}

impl View for DriverEvent {
    type V = DriverEventView;

    open spec fn view(&self) -> DriverEventView {
        match self {
            DriverEvent::DirectoryGiven { dir, file_name, parent, joined } => {
                DriverEventView::DirectoryGiven {
                    dir: dir@,
                    file_name: crate::json::opt_text(*file_name),
                    parent: parent@,
                    joined: joined@,
                }
            },
            DriverEvent::PlacesProbed { places } => DriverEventView::PlacesProbed {
                places: probes_view(places@),
            },
            DriverEvent::ManifestRead { document } => DriverEventView::ManifestRead {
                document: opt_json(*document),
            },
            DriverEvent::TemplatesCompiled { names } => DriverEventView::TemplatesCompiled {
                names: texts(names@),
            },
            DriverEvent::DocumentLoaded { spec, config, options } => {
                DriverEventView::DocumentLoaded {
                    spec: spec@,
                    config: config@,
                    options: opt_options(*options),
                }
            },
            DriverEvent::OutputPrepared => DriverEventView::OutputPrepared,
            DriverEvent::StepDone => DriverEventView::StepDone,
            DriverEvent::Failure { error } => DriverEventView::Failure { error: error@ },
        }
    }
}

impl View for DriverAction {
    type V = DriverActionView;

    open spec fn view(&self) -> DriverActionView {
        match self {
            DriverAction::ResolveDirectory { kind } => DriverActionView::ResolveDirectory {
                kind: *kind,
            },
            DriverAction::LoadManifest { template_path } => DriverActionView::LoadManifest {
                template_path: template_path@,
            },
            DriverAction::CompileTemplates { pattern } => DriverActionView::CompileTemplates {
                pattern: pattern@,
            },
            DriverAction::LoadDocument => DriverActionView::LoadDocument,
            DriverAction::PrepareOutput { schemas } => DriverActionView::PrepareOutput {
                schemas: *schemas,
            },
            DriverAction::Perform { step } => DriverActionView::Perform { step: step@ },
            DriverAction::Finish => DriverActionView::Finish,
            DriverAction::Abort { error } => DriverActionView::Abort { error: error@ },
        }
    }
}

/// The error for a report that does not fit the state of the run.
pub open spec fn unexpected_event_error() -> ErrorView {
    ErrorView::Config("The run is not in a state for what was reported"@)
}

/// The state in which step `next` of the plan is due: `Done` behind the last
/// step, the run of the hooks at a hook, the generation at any other step.
pub open spec fn state_at(steps: Seq<StepView>, next: nat) -> DriverStateView {
    if next >= steps.len() {
        DriverStateView::Done
    } else if steps[next as int] is RunHook {
        DriverStateView::PostHooksRun { steps, next }
    } else {
        DriverStateView::Generating { steps, next }
    }
}

/// Whether a run in this state is over.
pub open spec fn is_terminal(state: DriverStateView) -> bool {
    state is Done || state is Failed
}

/// The template directory for a directory that the caller named.
pub open spec fn located(
    kind: TemplateKind,
    dir: Seq<char>,
    file_name: Option<Seq<char>>,
    parent: Seq<char>,
    joined: Seq<char>,
) -> TemplateDirView {
    if file_name is Some && file_name->0 == kind_name(kind) {
        TemplateDirView { root_dir: parent, template_path: dir, kind }
    } else {
        TemplateDirView { root_dir: dir, template_path: joined, kind }
    }
}

/// The state that follows on a report.
///
/// A run that is over stays as it is. A reported failure fails the run with
/// its error. Otherwise each state moves on with the one report that
/// answers its action, and fails with any other.
pub open spec fn transition(state: DriverStateView, event: DriverEventView) -> DriverStateView {
    if is_terminal(state) {
        state
    } else if event is Failure {
        DriverStateView::Failed { error: event->Failure_error }
    } else {
        match (state, event) {
            (
                DriverStateView::Uninitialized { kind },
                DriverEventView::DirectoryGiven { dir, file_name, parent, joined },
            ) => DriverStateView::DirectoryResolved {
                dir: located(kind, dir, file_name, parent, joined),
            },
            (
                DriverStateView::Uninitialized { kind },
                DriverEventView::PlacesProbed { places },
            ) => match discovered(kind, None, places) {
                Ok(dir) => DriverStateView::DirectoryResolved { dir },
                Err(error) => DriverStateView::Failed { error },
            },
            (
                DriverStateView::DirectoryResolved { dir },
                DriverEventView::ManifestRead { document },
            ) => match document {
                None => DriverStateView::ManifestLoaded { dir, manifest: default_manifest() },
                Some(doc) => match manifest_of(doc) {
                    Some(manifest) => DriverStateView::ManifestLoaded { dir, manifest },
                    None => DriverStateView::Failed {
                        error: ErrorView::Template("Invalid template manifest"@),
                    },
                },
            },
            (
                DriverStateView::ManifestLoaded { dir, manifest },
                DriverEventView::TemplatesCompiled { names },
            ) => DriverStateView::TemplatesLoaded {
                manager: TemplateManagerView { template_dir: dir, manifest, templates: names },
            },
            (
                DriverStateView::TemplatesLoaded { manager },
                DriverEventView::DocumentLoaded { spec, config, options },
            ) => match generation_plan(spec, manager.manifest, options, config.base_url) {
                Ok(steps) => DriverStateView::Ready {
                    steps,
                    schemas: any_fan_out(manager.manifest.files),
                },
                Err(error) => DriverStateView::Failed { error },
            },
            (DriverStateView::Ready { steps, schemas }, DriverEventView::OutputPrepared) => {
                state_at(steps, 0)
            },
            (DriverStateView::Generating { steps, next }, DriverEventView::StepDone) => state_at(
                steps,
                next + 1,
            ),
            (DriverStateView::PostHooksRun { steps, next }, DriverEventView::StepDone) => {
                state_at(steps, next + 1)
            },
            _ => DriverStateView::Failed { error: unexpected_event_error() },
        }
    }
}

/// What is to be done in a state.
pub open spec fn action_of(state: DriverStateView) -> DriverActionView {
    match state {
        DriverStateView::Uninitialized { kind } => DriverActionView::ResolveDirectory { kind },
        DriverStateView::DirectoryResolved { dir } => DriverActionView::LoadManifest {
            template_path: dir.template_path,
        },
        DriverStateView::ManifestLoaded { dir, manifest } => DriverActionView::CompileTemplates {
            pattern: dir.template_path + "/**/*"@,
        },
        DriverStateView::TemplatesLoaded { manager } => DriverActionView::LoadDocument,
        DriverStateView::Ready { steps, schemas } => DriverActionView::PrepareOutput { schemas },
        DriverStateView::Generating { steps, next } => if next < steps.len() {
            DriverActionView::Perform { step: steps[next as int] }
        } else {
            DriverActionView::Finish
        },
        DriverStateView::PostHooksRun { steps, next } => if next < steps.len() {
            DriverActionView::Perform { step: steps[next as int] }
        } else {
            DriverActionView::Finish
        },
        DriverStateView::Done => DriverActionView::Finish,
        DriverStateView::Failed { error } => DriverActionView::Abort { error },
    }
}

/// How far a run has come: the number of its stage, and in the stages that
/// carry out the plan the number of the step that is due.
pub open spec fn progress(state: DriverStateView) -> (nat, nat) {
    match state {
        DriverStateView::Uninitialized { .. } => (0, 0),
        DriverStateView::DirectoryResolved { .. } => (1, 0),
        DriverStateView::ManifestLoaded { .. } => (2, 0),
        DriverStateView::TemplatesLoaded { .. } => (3, 0),
        DriverStateView::Ready { .. } => (4, 0),
        DriverStateView::Generating { steps, next } => (5, next),
        DriverStateView::PostHooksRun { steps, next } => (5, next),
        DriverStateView::Done => (6, 0),
        DriverStateView::Failed { .. } => (6, 0),
    }
}

/// A run that is over stays as it is, whatever is reported.
pub proof fn lemma_terminal_states_stay(state: DriverStateView, event: DriverEventView)
    requires
        is_terminal(state),
    ensures
        transition(state, event) == state,
{
}

/// A failure that is reported in any state of a run that is not over fails
/// the run with the error that was reported.
pub proof fn lemma_failure_is_terminal(state: DriverStateView, error: ErrorView)
    requires
        !is_terminal(state),
    ensures
        transition(state, DriverEventView::Failure { error }) == (DriverStateView::Failed {
            error,
        }),
{
}

/// Every report moves a run that is not over forward: to a later stage, or
/// to a later step of the plan. So every run comes to an end.
pub proof fn lemma_run_advances(state: DriverStateView, event: DriverEventView)
    requires
        !is_terminal(state),
    ensures
        ({
            let before = progress(state);
            let after = progress(transition(state, event));
            after.0 > before.0 || (after.0 == before.0 && after.1 > before.1)
        }),
{
}

/// The steps of the plan are handed out in their order, each once: while a
/// step is due it is the action, and when it is done the next one is due.
pub proof fn lemma_steps_in_order(steps: Seq<StepView>, next: nat)
    requires
        next < steps.len(),
    ensures
        action_of(state_at(steps, next)) == (DriverActionView::Perform {
            step: steps[next as int],
        }),
        transition(state_at(steps, next), DriverEventView::StepDone) == state_at(
            steps,
            next + 1,
        ),
        state_at(steps, steps.len()) is Done,
{
}

fn settle(steps: Vec<GenerationStep>, next: usize) -> (r: DriverState)
    ensures
        r@ == state_at(steps_view(steps@), next as nat),
{
    if next >= steps.len() {
        DriverState::Done
    } else {
        let hook = match &steps[next] {
            GenerationStep::RunHook { .. } => true,
            _ => false,
        };
        if hook {
            DriverState::PostHooksRun { steps, next }
        } else {
            DriverState::Generating { steps, next }
        }
    }
}

fn unexpected() -> (r: DriverState)
    ensures
        r@ == (DriverStateView::Failed { error: unexpected_event_error() }),
{
    DriverState::Failed {
        error: Error::config("The run is not in a state for what was reported"),
    }
}

impl DriverState {
    /// The state of a run that has not begun.
    pub fn new(kind: TemplateKind) -> (r: DriverState)
        ensures
            r@ == (DriverStateView::Uninitialized { kind }),
    {
        DriverState::Uninitialized { kind }
    }

    /// Whether the run is over.
    pub fn is_over(&self) -> (r: bool)
        ensures
            r == is_terminal(self@),
    {
        match self {
            DriverState::Done => true,
            DriverState::Failed { .. } => true,
            _ => false,
        }
    }

    /// Whether a document may be reported: the templates are loaded, and
    /// contexts can be built for their kind.
    pub open spec fn takes(self, event: DriverEventView) -> bool {
        (self@ is TemplatesLoaded && event is DocumentLoaded) ==> has_builder(
            self@->TemplatesLoaded_manager.template_dir.kind,
        )
    }

    /// What the caller has to do next.
    pub fn next_action(&self) -> (r: DriverAction)
        ensures
            r@ == action_of(self@),
    {
        match self {
            DriverState::Uninitialized { kind } => DriverAction::ResolveDirectory { kind: *kind },
            DriverState::DirectoryResolved { dir } => DriverAction::LoadManifest {
                template_path: owned(dir.template_path()),
            },
            DriverState::ManifestLoaded { dir, manifest } => DriverAction::CompileTemplates {
                pattern: TemplateManager::template_glob(dir.template_path()),
            },
            DriverState::TemplatesLoaded { manager } => DriverAction::LoadDocument,
            DriverState::Ready { steps, schemas } => DriverAction::PrepareOutput {
                schemas: *schemas,
            },
            DriverState::Generating { steps, next } => {
                if *next < steps.len() {
                    DriverAction::Perform { step: steps[*next].duplicate() }
                } else {
                    DriverAction::Finish
                }
            },
            DriverState::PostHooksRun { steps, next } => {
                if *next < steps.len() {
                    DriverAction::Perform { step: steps[*next].duplicate() }
                } else {
                    DriverAction::Finish
                }
            },
            DriverState::Done => DriverAction::Finish,
            DriverState::Failed { error } => DriverAction::Abort { error: error.duplicate() },
        }
    }

    /// The state that follows on a report of the caller.
    ///
    /// A document may only be reported for templates of a kind that contexts
    /// can be built for.
    pub fn advance(self, event: DriverEvent) -> (r: DriverState)
        requires
            self.takes(event@),
        ensures
            r@ == transition(self@, event@),
    {
        if self.is_over() {
            return self;
        }
        match event {
            DriverEvent::Failure { error } => DriverState::Failed { error },
            DriverEvent::DirectoryGiven { dir, file_name, parent, joined } => match self {
                DriverState::Uninitialized { kind } => DriverState::DirectoryResolved {
                    dir: TemplateManager::locate(
                        kind,
                        dir.as_str(),
                        match &file_name {
                            Some(name) => Some(name.as_str()),
                            None => None,
                        },
                        parent.as_str(),
                        joined.as_str(),
                    ),
                },
                _ => unexpected(),
            },
            DriverEvent::PlacesProbed { places } => match self {
                DriverState::Uninitialized { kind } => match TemplateDir::discover(
                    kind,
                    None,
                    &places,
                ) {
                    Ok(dir) => DriverState::DirectoryResolved { dir },
                    Err(error) => DriverState::Failed { error },
                },
                _ => unexpected(),
            },
            DriverEvent::ManifestRead { document } => match self {
                DriverState::DirectoryResolved { dir } => match document {
                    None => DriverState::ManifestLoaded {
                        dir,
                        manifest: TemplateManifest::default(),
                    },
                    Some(doc) => match TemplateManifest::from_json(&doc) {
                        Ok(manifest) => DriverState::ManifestLoaded { dir, manifest },
                        Err(error) => DriverState::Failed { error },
                    },
                },
                _ => unexpected(),
            },
            DriverEvent::TemplatesCompiled { names } => match self {
                DriverState::ManifestLoaded { dir, manifest } => DriverState::TemplatesLoaded {
                    manager: TemplateManager::new(dir, manifest, names),
                },
                _ => unexpected(),
            },
            DriverEvent::DocumentLoaded { spec, config, options } => match self {
                DriverState::TemplatesLoaded { manager } => {
                    let schemas = manager.writes_schemas();
                    match manager.generate(&spec, &config, options) {
                        Ok(steps) => DriverState::Ready { steps, schemas },
                        Err(error) => DriverState::Failed { error },
                    }
                },
                _ => unexpected(),
            },
            DriverEvent::OutputPrepared => match self {
                DriverState::Ready { steps, schemas } => settle(steps, 0),
                _ => unexpected(),
            },
            DriverEvent::StepDone => match self {
                DriverState::Generating { steps, next } => {
                    if next < steps.len() {
                        settle(steps, next + 1)
                    } else {
                        DriverState::Done
                    }
                },
                DriverState::PostHooksRun { steps, next } => {
                    if next < steps.len() {
                        settle(steps, next + 1)
                    } else {
                        DriverState::Done
                    }
                },
                _ => unexpected(),
            },
        }
    }
}

} // verus!
