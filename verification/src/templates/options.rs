//! The options of a generation that the caller may set.

use crate::json::{Json, JsonValue, opt_json, opt_text, texts};
use vstd::prelude::*;

verus! {

/// What the caller may set for a generation. Everything is optional.
#[derive(Debug, PartialEq)]
pub struct TemplateOptions {
    /// Whether every operation is included, whatever `include_operations`
    /// says.
    pub all_operations: bool,
    /// Whether tests are generated.
    pub include_tests: bool,
    /// Whether existing files are overwritten.
    pub overwrite: bool,
    /// Instructions for the agent, handed to the templates as they are.
    pub agent_instructions: Option<JsonValue>,
    /// The operations to include; empty for all.
    pub include_operations: Vec<String>,
    /// The operations to leave out.
    pub exclude_operations: Vec<String>,
    /// The port of the generated server.
    pub server_port: Option<u16>,
    /// The name of the log file of the generated server.
    pub log_file: Option<String>,
}

/// The model of [`TemplateOptions`].
pub struct TemplateOptionsView {
    pub all_operations: bool,
    pub include_tests: bool,
    pub overwrite: bool,
    pub agent_instructions: Option<Json>,
    pub include_operations: Seq<Seq<char>>,
    pub exclude_operations: Seq<Seq<char>>,
    pub server_port: Option<u16>,
    pub log_file: Option<Seq<char>>,
}

impl View for TemplateOptions {
    type V = TemplateOptionsView;

    open spec fn view(&self) -> TemplateOptionsView {
        TemplateOptionsView {
            all_operations: self.all_operations,
            include_tests: self.include_tests,
            overwrite: self.overwrite,
            agent_instructions: opt_json(self.agent_instructions),
            include_operations: texts(self.include_operations@),
            exclude_operations: texts(self.exclude_operations@),
            server_port: self.server_port,
            log_file: opt_text(self.log_file),
        }
    }
}

/// The options with nothing set.
pub open spec fn default_options() -> TemplateOptionsView {
    TemplateOptionsView {
        all_operations: false,
        include_tests: false,
        overwrite: false,
        agent_instructions: None,
        include_operations: Seq::empty(),
        exclude_operations: Seq::empty(),
        server_port: None,
        log_file: None,
    }
}

/// The model of options that may be missing.
pub open spec fn opt_options(o: Option<TemplateOptions>) -> Option<TemplateOptionsView> {
    match o {
        Some(opts) => Some(opts@),
        None => None,
    }
}

/// Whether `list` holds `id`.
pub open spec fn lists(list: Seq<Seq<char>>, id: Seq<char>) -> bool {
    exists|i: int| 0 <= i < list.len() && list[i] == id
}

/// Whether an operation takes part in a generation.
///
/// Without options every operation does. With options, an operation takes
/// part when all do, when no operation is listed for inclusion, or when it
/// is listed; and in no case when it is listed for exclusion.
pub open spec fn operation_selected(options: Option<TemplateOptionsView>, id: Seq<char>) -> bool {
    match options {
        None => true,
        Some(o) => (o.all_operations || o.include_operations.len() == 0 || lists(
            o.include_operations,
            id,
        )) && !lists(o.exclude_operations, id),
    }
}

/// The rules of selection, one by one: an operation that is listed for
/// exclusion never takes part; of the others, all take part where all are
/// asked for or none is listed for inclusion, and otherwise exactly those
/// that are listed.
pub proof fn lemma_selection_rules(o: TemplateOptionsView, id: Seq<char>)
    ensures
        lists(o.exclude_operations, id) ==> !operation_selected(Some(o), id),
        !lists(o.exclude_operations, id) && (o.all_operations || o.include_operations.len()
            == 0) ==> operation_selected(Some(o), id),
        !lists(o.exclude_operations, id) && !o.all_operations && o.include_operations.len() > 0
            ==> (operation_selected(Some(o), id) <==> lists(o.include_operations, id)),
        operation_selected(None, id),
{
}

impl Default for TemplateOptions {
    fn default() -> (r: TemplateOptions)
        ensures
            r@ == default_options(),
    {
        let r = TemplateOptions {
            all_operations: false,
            include_tests: false,
            overwrite: false,
            agent_instructions: None,
            include_operations: Vec::new(),
            exclude_operations: Vec::new(),
            server_port: None,
            log_file: None,
        };
        assert(r@.include_operations =~= Seq::<Seq<char>>::empty());
        assert(r@.exclude_operations =~= Seq::<Seq<char>>::empty());
        r
    }
}

impl TemplateOptions {
    /// Whether the operation `id` takes part in a generation under the given
    /// options.
    pub fn selects(options: &Option<TemplateOptions>, id: &str) -> (r: bool)
        ensures
            r == operation_selected(opt_options(*options), id@),
    {
        match options {
            None => true,
            Some(o) => {
                let listed = crate::text::contains_text(&o.include_operations, id);
                let excluded = crate::text::contains_text(&o.exclude_operations, id);
                proof {
                    let inc = texts(o.include_operations@);
                    let exc = texts(o.exclude_operations@);
                    if listed {
                        let i = choose|i: int|
                            0 <= i < o.include_operations@.len() && o.include_operations@[i]@
                                == id@;
                        assert(inc[i] == id@);
                    }
                    if lists(inc, id@) {
                        let i = choose|i: int| 0 <= i < inc.len() && inc[i] == id@;
                        assert(o.include_operations@[i]@ == id@);
                    }
                    if excluded {
                        let i = choose|i: int|
                            0 <= i < o.exclude_operations@.len() && o.exclude_operations@[i]@
                                == id@;
                        assert(exc[i] == id@);
                    }
                    if lists(exc, id@) {
                        let i = choose|i: int| 0 <= i < exc.len() && exc[i] == id@;
                        assert(o.exclude_operations@[i]@ == id@);
                    }
                }
                (o.all_operations || o.include_operations.len() == 0 || listed) && !excluded
            },
        }
    }
}

} // verus!
