//! What a generation does, step by step.
//!
//! The library decides what is rendered and written; the caller renders,
//! writes and runs. A plan is the list of steps in the order in which they
//! are to be carried out.

use crate::json::{Json, JsonValue};
use vstd::prelude::*;

verus! {

/// One step of a generation.
#[derive(Debug, PartialEq)]
pub enum GenerationStep {
    /// Render the template `template` with `context` and write the result to
    /// `destination`, a path from the output directory.
    Render { template: String, destination: String, context: JsonValue },
    /// Write `schema`, pretty-printed, to `destination`, a path from the
    /// output directory.
    WriteSchema { destination: String, schema: JsonValue },
    /// Run `command` by the shell in the output directory.
    RunHook { command: String },
}

/// The model of a [`GenerationStep`].
pub enum StepView {
    Render { template: Seq<char>, destination: Seq<char>, context: Json },
    WriteSchema { destination: Seq<char>, schema: Json },
    RunHook { command: Seq<char> },
}

impl View for GenerationStep {
    type V = StepView;

    open spec fn view(&self) -> StepView {
        match self {
            GenerationStep::Render { template, destination, context } => StepView::Render {
                template: template@,
                destination: destination@,
                context: context@,
            },
            GenerationStep::WriteSchema { destination, schema } => StepView::WriteSchema {
                destination: destination@,
                schema: schema@,
            },
            GenerationStep::RunHook { command } => StepView::RunHook { command: command@ },
        }
    }
}

impl GenerationStep {
    /// A copy of the step.
    pub fn duplicate(&self) -> (r: GenerationStep)
        ensures
            r@ == self@,
    {
        match self {
            GenerationStep::Render { template, destination, context } => GenerationStep::Render {
                template: template.clone(),
                destination: destination.clone(),
                context: context.clone(),
            },
            GenerationStep::WriteSchema { destination, schema } => GenerationStep::WriteSchema {
                destination: destination.clone(),
                schema: schema.clone(),
            },
            GenerationStep::RunHook { command } => GenerationStep::RunHook {
                command: command.clone(),
            },
        }
    }
}

/// The models of a list of steps.
pub open spec fn steps_view(v: Seq<GenerationStep>) -> Seq<StepView> {
    Seq::new(v.len(), |i: int| v[i]@)
}

/// Moves the steps of `src` to the end of `dst`.
pub fn append_steps(dst: &mut Vec<GenerationStep>, src: Vec<GenerationStep>)
    ensures
        steps_view(final(dst)@) == steps_view(old(dst)@) + steps_view(src@),
{
    let ghost before = steps_view(dst@);
    let ghost added = steps_view(src@);
    let mut src = src;
    dst.append(&mut src);
    assert(steps_view(dst@) =~= before + added);
}

} // verus!
