//! The manifest of a set of templates: which template is rendered to which
//! file, and what runs afterwards.

use crate::error::{Error, ErrorView};
use crate::json::{entries_view, items_view, Json, JsonValue, lookup, Member, opt_text, texts};
use crate::openapi::fields::{
    read_required_string, read_string_field, required_string_field, string_field,
};
use crate::text::owned;
use vstd::prelude::*;

verus! {

/// One file to generate.
#[derive(Debug, PartialEq)]
pub struct TemplateFile {
    /// The template, as a path from the template directory.
    pub source: String,
    /// The file to write, as a path from the output directory. It may hold
    /// the placeholders `{{operation_id}}` and `{{endpoint}}`.
    pub destination: String,
    /// What the template is rendered once for: `endpoint` or `operation` for
    /// once per operation; nothing for once in all.
    pub for_each: Option<String>,
    /// Values for the template that go over those of the base context.
    pub context: JsonValue,
}

/// The model of a [`TemplateFile`].
pub struct TemplateFileView {
    pub source: Seq<char>,
    pub destination: Seq<char>,
    pub for_each: Option<Seq<char>>,
    pub context: Json,
}

impl View for TemplateFile {
    type V = TemplateFileView;

    open spec fn view(&self) -> TemplateFileView {
        TemplateFileView {
            source: self.source@,
            destination: self.destination@,
            for_each: opt_text(self.for_each),
            context: self.context@,
        }
    }
}

/// The commands that run around a generation.
#[derive(Debug, PartialEq)]
pub struct TemplateHooks {
    /// The commands to run before anything is generated.
    pub pre_generate: Vec<String>,
    /// The commands to run after everything was generated.
    pub post_generate: Vec<String>,
}

/// The model of [`TemplateHooks`].
pub struct TemplateHooksView {
    pub pre_generate: Seq<Seq<char>>,
    pub post_generate: Seq<Seq<char>>,
}

impl View for TemplateHooks {
    type V = TemplateHooksView;

    open spec fn view(&self) -> TemplateHooksView {
        TemplateHooksView {
            pre_generate: texts(self.pre_generate@),
            post_generate: texts(self.post_generate@),
        }
    }
}

/// The manifest of a set of templates.
#[derive(Debug, PartialEq)]
pub struct TemplateManifest {
    pub name: String,
    pub description: String,
    pub version: String,
    /// The target language, such as `rust`.
    pub language: String,
    /// The files to generate, in order.
    pub files: Vec<TemplateFile>,
    pub hooks: TemplateHooks,
}

/// The model of a [`TemplateManifest`].
pub struct TemplateManifestView {
    pub name: Seq<char>,
    pub description: Seq<char>,
    pub version: Seq<char>,
    pub language: Seq<char>,
    pub files: Seq<TemplateFileView>,
    pub hooks: TemplateHooksView,
}

/// The models of a list of file entries.
pub open spec fn files_view(v: Seq<TemplateFile>) -> Seq<TemplateFileView> {
    Seq::new(v.len(), |i: int| v[i]@)
}

impl View for TemplateManifest {
    type V = TemplateManifestView;

    open spec fn view(&self) -> TemplateManifestView {
        TemplateManifestView {
            name: self.name@,
            description: self.description@,
            version: self.version@,
            language: self.language@,
            files: files_view(self.files@),
            hooks: self.hooks@,
        }
    }
}

/// The manifest that stands in for a missing one: no files, no hooks.
pub open spec fn default_manifest() -> TemplateManifestView {
    TemplateManifestView {
        name: "default"@,
        description: "Default template"@,
        version: "0.1.0"@,
        language: "rust"@,
        files: Seq::empty(),
        hooks: TemplateHooksView { pre_generate: Seq::empty(), post_generate: Seq::empty() },
    }
}

/// The texts of a list of strings; `None` where an item is no string.
pub open spec fn all_strings(items: Seq<Json>) -> Option<Seq<Seq<char>>>
    decreases items.len(),
{
    if items.len() == 0 {
        Some(Seq::empty())
    } else {
        match (all_strings(items.drop_last()), items.last()) {
            (Some(head), Json::String(s)) => Some(head.push(s)),
            _ => None,
        }
    }
}

/// The commands that a member of `hooks` gives: none where it is absent,
/// one where it is a string, several where it is a list of strings; `None`
/// for anything else.
pub open spec fn commands_of(hooks: Seq<Member>, key: Seq<char>) -> Option<Seq<Seq<char>>> {
    match lookup(hooks, key) {
        None => Some(Seq::empty()),
        Some(Json::String(s)) => Some(seq![s]),
        Some(Json::Array(items)) => all_strings(items),
        Some(_) => None,
    }
}

/// The hooks that a manifest gives: none where the member is absent;
/// otherwise it must be an object.
pub open spec fn hooks_of(manifest: Seq<Member>) -> Option<TemplateHooksView> {
    match lookup(manifest, "hooks"@) {
        None => Some(
            TemplateHooksView { pre_generate: Seq::empty(), post_generate: Seq::empty() },
        ),
        Some(Json::Object(hooks)) => match (
            commands_of(hooks, "pre_generate"@),
            commands_of(hooks, "post_generate"@),
        ) {
            (Some(pre), Some(post)) => Some(
                TemplateHooksView { pre_generate: pre, post_generate: post },
            ),
            _ => None,
        },
        Some(_) => None,
    }
}

/// The file that one entry of `files` describes: an object with a string
/// `source` and a string `destination`.
pub open spec fn file_of(entry: Json) -> Option<TemplateFileView> {
    match entry {
        Json::Object(m) => match (
            required_string_field(m, "source"@),
            required_string_field(m, "destination"@),
            string_field(m, "for_each"@),
        ) {
            (Some(source), Some(destination), Some(for_each)) => Some(
                TemplateFileView {
                    source,
                    destination,
                    for_each,
                    context: match lookup(m, "context"@) {
                        Some(c) => c,
                        None => Json::Null,
                    },
                },
            ),
            _ => None,
        },
        _ => None,
    }
}

/// The files that the entries describe; `None` where one entry describes
/// none.
pub open spec fn manifest_files_of(entries: Seq<Json>) -> Option<Seq<TemplateFileView>>
    decreases entries.len(),
{
    if entries.len() == 0 {
        Some(Seq::empty())
    } else {
        match (manifest_files_of(entries.drop_last()), file_of(entries.last())) {
            (Some(head), Some(f)) => Some(head.push(f)),
            _ => None,
        }
    }
}

/// The manifest that a document describes: an object with the strings
/// `name`, `description`, `version` and `language`, and the list `files`.
pub open spec fn manifest_of(doc: Json) -> Option<TemplateManifestView> {
    match doc {
        Json::Object(m) => match (
            required_string_field(m, "name"@),
            required_string_field(m, "description"@),
            required_string_field(m, "version"@),
            required_string_field(m, "language"@),
            Json::Object(m).get_array("files"@),
            hooks_of(m),
        ) {
            (
                Some(name),
                Some(description),
                Some(version),
                Some(language),
                Some(entries),
                Some(hooks),
            ) => match manifest_files_of(entries) {
                Some(files) => Some(
                    TemplateManifestView { name, description, version, language, files, hooks },
                ),
                None => None,
            },
            _ => None,
        },
        _ => None,
    }
}

impl Default for TemplateHooks {
    fn default() -> (r: TemplateHooks)
        ensures
            r@ == (TemplateHooksView { pre_generate: Seq::empty(), post_generate: Seq::empty() }),
    {
        let r = TemplateHooks { pre_generate: Vec::new(), post_generate: Vec::new() };
        assert(r@.pre_generate =~= Seq::<Seq<char>>::empty());
        assert(r@.post_generate =~= Seq::<Seq<char>>::empty());
        r
    }
}

impl Default for TemplateFile {
    fn default() -> (r: TemplateFile)
        ensures
            r@ == (TemplateFileView {
                source: Seq::empty(),
                destination: Seq::empty(),
                for_each: None,
                context: Json::Null,
            }),
    {
        TemplateFile {
            source: String::new(),
            destination: String::new(),
            for_each: None,
            context: JsonValue::Null,
        }
    }
}

impl Default for TemplateManifest {
    fn default() -> (r: TemplateManifest)
        ensures
            r@ == default_manifest(),
    {
        let r = TemplateManifest {
            name: owned("default"),
            description: owned("Default template"),
            version: owned("0.1.0"),
            language: owned("rust"),
            files: Vec::new(),
            hooks: TemplateHooks::default(),
        };
        assert(r@.files =~= Seq::<TemplateFileView>::empty());
        r
    }
}

fn read_strings(items: &Vec<JsonValue>) -> (r: Option<Vec<String>>)
    ensures
        match r {
            Some(v) => all_strings(items_view(items@)) == Some(texts(v@)),
            None => all_strings(items_view(items@)) is None,
        },
{
    let ghost all = items_view(items@);
    let mut out: Vec<String> = Vec::new();
    let mut i: usize = 0;
    assert(texts(out@) =~= Seq::<Seq<char>>::empty());
    while i < items.len()
        invariant
            i <= items.len(),
            all == items_view(items@),
            all_strings(all.take(i as int)) == Some(texts(out@)),
        decreases items.len() - i,
    {
        proof {
            assert(all.take(i as int + 1).drop_last() =~= all.take(i as int));
            assert(all.take(i as int + 1).last() == items@[i as int]@);
        }
        let ghost before = texts(out@);
        match &items[i] {
            JsonValue::String(s) => {
                out.push(s.clone());
                assert(texts(out@) =~= before.push(s@));
            },
            _ => {
                proof {
                    lemma_all_strings_fail(all, i as int + 1);
                }
                return None;
            },
        }
        i += 1;
    }
    assert(all.take(items@.len() as int) =~= all);
    Some(out)
}

proof fn lemma_all_strings_fail(items: Seq<Json>, k: int)
    requires
        0 <= k <= items.len(),
        all_strings(items.take(k)) is None,
    ensures
        all_strings(items) is None,
    decreases items.len() - k,
{
    if k < items.len() {
        assert(items.take(k + 1).drop_last() =~= items.take(k));
        lemma_all_strings_fail(items, k + 1);
    } else {
        assert(items.take(k) =~= items);
    }
}

proof fn lemma_manifest_files_fail(entries: Seq<Json>, k: int)
    requires
        0 <= k <= entries.len(),
        manifest_files_of(entries.take(k)) is None,
    ensures
        manifest_files_of(entries) is None,
    decreases entries.len() - k,
{
    if k < entries.len() {
        assert(entries.take(k + 1).drop_last() =~= entries.take(k));
        lemma_manifest_files_fail(entries, k + 1);
    } else {
        assert(entries.take(k) =~= entries);
    }
}

fn read_commands(hooks: &Vec<(String, JsonValue)>, key: &str) -> (r: Option<Vec<String>>)
    ensures
        match r {
            Some(v) => commands_of(entries_view(hooks@), key@) == Some(texts(v@)),
            None => commands_of(entries_view(hooks@), key@) is None,
        },
{
    match crate::json::entries_get(hooks, key) {
        None => {
            let v: Vec<String> = Vec::new();
            assert(texts(v@) =~= Seq::<Seq<char>>::empty());
            Some(v)
        },
        Some(value) => match value {
            JsonValue::String(s) => {
                let mut v: Vec<String> = Vec::new();
                v.push(s.clone());
                assert(texts(v@) =~= seq![s@]);
                Some(v)
            },
            JsonValue::Array(items) => {
                proof {
                    crate::json::lemma_array_view(*items);
                }
                read_strings(items)
            },
            _ => None,
        },
    }
}

impl TemplateHooks {
    /// Reads the hooks of a manifest. Each of `pre_generate` and
    /// `post_generate` is a command or a list of commands.
    pub fn from_manifest(manifest: &Vec<(String, JsonValue)>) -> (r: Option<TemplateHooks>)
        ensures
            match r {
                Some(h) => hooks_of(entries_view(manifest@)) == Some(h@),
                None => hooks_of(entries_view(manifest@)) is None,
            },
    {
        match crate::json::entries_get(manifest, "hooks") {
            None => Some(TemplateHooks::default()),
            Some(value) => match value.as_object() {
                Some(hooks) => {
                    let pre_generate = match read_commands(hooks, "pre_generate") {
                        Some(v) => v,
                        None => return None,
                    };
                    let post_generate = match read_commands(hooks, "post_generate") {
                        Some(v) => v,
                        None => return None,
                    };
                    Some(TemplateHooks { pre_generate, post_generate })
                },
                None => None,
            },
        }
    }
}

impl TemplateFile {
    /// Reads one entry of the list `files` of a manifest.
    pub fn from_json(entry: &JsonValue) -> (r: Option<TemplateFile>)
        ensures
            match r {
                Some(f) => file_of(entry@) == Some(f@),
                None => file_of(entry@) is None,
            },
    {
        let m = match entry.as_object() {
            Some(m) => m,
            None => return None,
        };
        let source = match read_required_string(m, "source") {
            Some(s) => s,
            None => return None,
        };
        let destination = match read_required_string(m, "destination") {
            Some(s) => s,
            None => return None,
        };
        let for_each = match read_string_field(m, "for_each") {
            Some(f) => f,
            None => return None,
        };
        let context = match crate::json::entries_get(m, "context") {
            Some(c) => c.clone(),
            None => JsonValue::Null,
        };
        Some(TemplateFile { source, destination, for_each, context })
    }

    /// A copy of the file entry.
    pub fn duplicate(&self) -> (r: TemplateFile)
        ensures
            r@ == self@,
    {
        TemplateFile {
            source: self.source.clone(),
            destination: self.destination.clone(),
            for_each: crate::json::clone_opt_text(&self.for_each),
            context: self.context.clone(),
        }
    }
}

impl TemplateManifest {
    /// Reads a manifest from the document that its file was parsed to.
    ///
    /// The document must give the strings `name`, `description`, `version`
    /// and `language` and the list `files`, each file with a `source` and a
    /// `destination`. Anything else is refused as a template error.
    pub fn from_json(doc: &JsonValue) -> (r: Result<TemplateManifest, Error>)
        ensures
            match r {
                Ok(m) => manifest_of(doc@) == Some(m@),
                Err(e) => manifest_of(doc@) is None && e@ == ErrorView::Template(
                    "Invalid template manifest"@,
                ),
            },
    {
        let m = match doc.as_object() {
            Some(m) => m,
            None => return Err(Error::template("Invalid template manifest")),
        };
        let name = match read_required_string(m, "name") {
            Some(s) => s,
            None => return Err(Error::template("Invalid template manifest")),
        };
        let description = match read_required_string(m, "description") {
            Some(s) => s,
            None => return Err(Error::template("Invalid template manifest")),
        };
        let version = match read_required_string(m, "version") {
            Some(s) => s,
            None => return Err(Error::template("Invalid template manifest")),
        };
        let language = match read_required_string(m, "language") {
            Some(s) => s,
            None => return Err(Error::template("Invalid template manifest")),
        };
        let entries = match crate::json::entries_get(m, "files") {
            Some(v) => match v.as_array() {
                Some(entries) => entries,
                None => return Err(Error::template("Invalid template manifest")),
            },
            None => return Err(Error::template("Invalid template manifest")),
        };
        let hooks = match TemplateHooks::from_manifest(m) {
            Some(h) => h,
            None => return Err(Error::template("Invalid template manifest")),
        };
        let ghost all = items_view(entries@);
        let mut files: Vec<TemplateFile> = Vec::new();
        let mut i: usize = 0;
        assert(files_view(files@) =~= Seq::<TemplateFileView>::empty());
        while i < entries.len()
            invariant
                i <= entries.len(),
                all == items_view(entries@),
                manifest_of(doc@) == match manifest_files_of(all) {
                    Some(f) => Some(
                        TemplateManifestView {
                            name: name@,
                            description: description@,
                            version: version@,
                            language: language@,
                            files: f,
                            hooks: hooks@,
                        },
                    ),
                    None => None,
                },
                manifest_files_of(all.take(i as int)) == Some(files_view(files@)),
            decreases entries.len() - i,
        {
            proof {
                assert(all.take(i as int + 1).drop_last() =~= all.take(i as int));
                assert(all.take(i as int + 1).last() == entries@[i as int]@);
            }
            let ghost before = files_view(files@);
            match TemplateFile::from_json(&entries[i]) {
                Some(f) => {
                    let ghost fv = f@;
                    files.push(f);
                    assert(files_view(files@) =~= before.push(fv));
                },
                None => {
                    proof {
                        lemma_manifest_files_fail(all, i as int + 1);
                    }
                    return Err(Error::template("Invalid template manifest"));
                },
            }
            i += 1;
        }
        assert(all.take(entries@.len() as int) =~= all);
        Ok(TemplateManifest { name, description, version, language, files, hooks })
    }
}

} // verus!
