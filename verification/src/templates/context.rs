//! The base context: what every template is told of the document.

use crate::builders::{
    built_contexts, EndpointContext, has_builder, lemma_sorted_contexts, sorted_by_endpoint,
    sorted_contexts,
};
use crate::error::{Error, ErrorView};
use crate::json::{
    entries_view, Json, JsonNumber, JsonValue, key_index, lemma_key_index_absent,
    lemma_key_index_found, lemma_key_index_spec, lookup, Member, member, Num,
};
use crate::openapi::context::{
    declared_server_url, document_operations, document_title, document_version, is_web_location,
    OpenApiContext,
};
use crate::openapi::model::{OpenApiOperation, operations_view, OperationView};
use crate::templates::kind::TemplateKind;
use crate::templates::options::{opt_options, TemplateOptions, TemplateOptionsView};
use crate::text::{
    chars_extend, chars_join, chars_trim_end_char, concat, concat3, from_chars, join, owned,
    parts_view, starts_with, to_chars, trim_end_char,
};
use crate::utils::{snake_case, to_snake_case};
use vstd::prelude::*;

verus! {

/// The port of the generated server where none is chosen.
pub const DEFAULT_SERVER_PORT: u16 = 8080;

/// The error for a document that declares no server.
pub open spec fn no_server_error() -> ErrorView {
    ErrorView::Config(
        "No server URL found in OpenAPI spec. Please define at least one server in the 'servers' section (OpenAPI 3.0+) or 'host' field (Swagger 2.0) of your OpenAPI specification"@,
    )
}

/// The error for a document that declares only a path, where the caller
/// gave no base URL.
pub open spec fn missing_base_url_error(declared: Seq<char>) -> ErrorView {
    ErrorView::Config(
        "OpenAPI spec contains a relative server URL '"@ + declared
            + "', but no --base-url was provided. Please provide a base URL (e.g., --base-url https://api.example.com)"@,
    )
}

/// The error for a declared server URL that is neither absolute nor a path
/// from the root.
pub open spec fn invalid_server_url_error(declared: Seq<char>) -> ErrorView {
    ErrorView::Config(
        "Invalid server URL format in OpenAPI spec: '"@ + declared
            + "'. URL must be either a fully qualified URL (https://api.example.com/v1) or a relative path (/api/v1)"@,
    )
}

/// The base URL of the API.
///
/// A declared URL that begins with `http://` or `https://` is taken as it
/// is. One that begins with `/` goes behind the base URL of the caller, from
/// which trailing slashes are removed first; without such a base URL it is an
/// error. Any other declared URL, and none at all, is an error.
pub open spec fn base_url_outcome(declared: Option<Seq<char>>, base: Option<Seq<char>>) -> Result<
    Seq<char>,
    ErrorView,
> {
    match declared {
        None => Err(no_server_error()),
        Some(url) => if is_web_location(url) {
            Ok(url)
        } else if "/"@.is_prefix_of(url) {
            match base {
                Some(b) => Ok(trim_end_char(b, '/') + url),
                None => Err(missing_base_url_error(url)),
            }
        } else {
            Err(invalid_server_url_error(url))
        },
    }
}

/// A declared URL that is absolute stands as it is, whatever base URL the
/// caller gave, and none is needed.
pub proof fn lemma_absolute_url_stands(declared: Seq<char>, base: Option<Seq<char>>)
    requires
        is_web_location(declared),
    ensures
        base_url_outcome(Some(declared), base) == Ok::<Seq<char>, ErrorView>(declared),
        base_url_outcome(Some(declared), None) is Ok,
{
}

/// A text that begins with `/` names no resource on the web.
pub proof fn lemma_path_is_no_web_location(path: Seq<char>)
    requires
        "/"@.is_prefix_of(path),
    ensures
        !is_web_location(path),
{
    reveal_strlit("/");
    reveal_strlit("http://");
    reveal_strlit("https://");
    assert("/"@[0] == '/');
    assert(path[0] == '/');
    if "http://"@.is_prefix_of(path) {
        assert("http://"@[0] == 'h');
        assert(path[0] == "http://"@[0]);
    }
    if "https://"@.is_prefix_of(path) {
        assert("https://"@[0] == 'h');
        assert(path[0] == "https://"@[0]);
    }
}

/// A declared URL that is only a path from the root cannot stand without a
/// base URL of the caller: the outcome is the error that names the missing
/// base URL.
pub proof fn lemma_path_needs_base_url(declared: Seq<char>)
    requires
        "/"@.is_prefix_of(declared),
    ensures
        base_url_outcome(Some(declared), None) == Err::<Seq<char>, ErrorView>(
            missing_base_url_error(declared),
        ),
{
    lemma_path_is_no_web_location(declared);
}

/// The members that give the name of the project: the title in snake case
/// and as it is, where the document has a title.
pub open spec fn title_members(doc: Json) -> Seq<Member> {
    match document_title(doc) {
        Some(title) => seq![
            Member { key: "project_name"@, value: Json::String(snake_case(title)) },
            Member { key: "project_title"@, value: Json::String(title) },
        ],
        None => Seq::empty(),
    }
}

/// The member that gives the version of the API, where the document has one.
pub open spec fn version_members(doc: Json) -> Seq<Member> {
    match document_version(doc) {
        Some(version) => seq![Member { key: "api_version"@, value: Json::String(version) }],
        None => Seq::empty(),
    }
}

/// The instructions for the agent: those of the options, else the empty
/// text.
pub open spec fn agent_instructions_of(options: Option<TemplateOptionsView>) -> Json {
    match options {
        Some(o) => match o.agent_instructions {
            Some(v) => v,
            None => Json::String(Seq::empty()),
        },
        None => Json::String(Seq::empty()),
    }
}

/// The name of the log file: that of the options, else `mcpgen`.
pub open spec fn log_file_of(options: Option<TemplateOptionsView>) -> Seq<char> {
    match options {
        Some(o) => match o.log_file {
            Some(name) => name,
            None => "mcpgen"@,
        },
        None => "mcpgen"@,
    }
}

/// The port of the server: that of the options, else 8080.
pub open spec fn server_port_of(options: Option<TemplateOptionsView>) -> int {
    match options {
        Some(o) => match o.server_port {
            Some(port) => port as int,
            None => 8080,
        },
        None => 8080,
    }
}

/// The members of the base context.
pub open spec fn base_context_members(
    doc: Json,
    options: Option<TemplateOptionsView>,
    endpoints: Seq<Json>,
    base_api_url: Seq<char>,
) -> Seq<Member> {
    title_members(doc) + version_members(doc) + seq![
        Member { key: "agent_instructions"@, value: agent_instructions_of(options) },
        Member { key: "spec"@, value: doc },
        Member { key: "spec_file_name"@, value: Json::String("openapi.json"@) },
        Member { key: "endpoints"@, value: Json::Array(endpoints) },
        Member { key: "log_file"@, value: Json::String(log_file_of(options)) },
        Member { key: "server_port"@, value: Json::Number(Num::Int(server_port_of(options))) },
        Member { key: "base_api_url"@, value: Json::String(base_api_url) },
    ]
}

/// Whether every operation of the document has a context, so that only the
/// base URL can still keep the base context from being built.
pub open spec fn operations_have_contexts(doc: Json) -> bool {
    match document_operations(doc) {
        Some(ops) => built_contexts(doc, ops) is Ok,
        None => false,
    }
}

/// The base context of a document, or the reason why there is none: the
/// document has no paths, an operation has no context, or the base URL of
/// the API cannot be told.
pub open spec fn base_context_of(
    doc: Json,
    options: Option<TemplateOptionsView>,
    base_url: Option<Seq<char>>,
) -> Result<Json, ErrorView> {
    match document_operations(doc) {
        None => Err(ErrorView::OpenApi("Missing 'paths' object"@)),
        Some(ops) => match built_contexts(doc, ops) {
            Err(e) => Err(e),
            Ok(contexts) => match base_url_outcome(declared_server_url(doc), base_url) {
                Err(e) => Err(e),
                Ok(url) => Ok(
                    Json::Object(
                        base_context_members(doc, options, sorted_contexts(contexts), url),
                    ),
                ),
            },
        },
    }
}

proof fn lemma_base_api_url_member(
    doc: Json,
    options: Option<TemplateOptionsView>,
    endpoints: Seq<Json>,
    url: Seq<char>,
)
    ensures
        lookup(base_context_members(doc, options, endpoints, url), "base_api_url"@) == Some(
            Json::String(url),
        ),
{
    reveal_strlit("project_name");
    reveal_strlit("project_title");
    reveal_strlit("api_version");
    reveal_strlit("agent_instructions");
    reveal_strlit("spec");
    reveal_strlit("spec_file_name");
    reveal_strlit("endpoints");
    reveal_strlit("log_file");
    reveal_strlit("server_port");
    reveal_strlit("base_api_url");
    let key = "base_api_url"@;
    assert(key.len() == 12 && key[0] == 'b');
    assert("project_name"@[0] == 'p');
    assert("project_title"@.len() == 13);
    assert("api_version"@.len() == 11);
    assert("agent_instructions"@.len() == 18);
    assert("spec"@.len() == 4);
    assert("spec_file_name"@.len() == 14);
    assert("endpoints"@.len() == 9);
    assert("log_file"@.len() == 8);
    assert("server_port"@.len() == 11);
    let members = base_context_members(doc, options, endpoints, url);
    let last = members.len() - 1;
    assert(members[last] == Member { key, value: Json::String(url) });
    assert forall|j: int| 0 <= j < last implies (#[trigger] members[j]).key != key by {
        let t = title_members(doc);
        let v = version_members(doc);
        if j < t.len() {
            assert(members[j] == t[j]);
        } else if j < t.len() + v.len() {
            assert(members[j] == v[j - t.len()]);
        }
    }
    lemma_key_index_found(members, key, last);
}

proof fn lemma_built_contexts_count(doc: Json, ops: Seq<OperationView>)
    requires
        built_contexts(doc, ops) is Ok,
    ensures
        built_contexts(doc, ops)->Ok_0.len() == ops.len(),
    decreases ops.len(),
{
    if ops.len() > 0 {
        lemma_built_contexts_count(doc, ops.drop_last());
    }
}

/// The base context lists one endpoint context for each operation of the
/// document, in ascending order of the endpoint names.
pub proof fn lemma_base_context_endpoints(
    doc: Json,
    options: Option<TemplateOptionsView>,
    base_url: Option<Seq<char>>,
)
    requires
        base_context_of(doc, options, base_url) is Ok,
    ensures
        ({
            let ops = document_operations(doc)->Some_0;
            let listed = sorted_contexts(built_contexts(doc, ops)->Ok_0);
            &&& base_context_of(doc, options, base_url)->Ok_0.get("endpoints"@) == Some(
                Json::Array(listed),
            )
            &&& listed.len() == ops.len()
            &&& sorted_by_endpoint(listed)
            &&& listed.to_multiset() == built_contexts(doc, ops)->Ok_0.to_multiset()
        }),
{
    let ops = document_operations(doc)->Some_0;
    let contexts = built_contexts(doc, ops)->Ok_0;
    let listed = sorted_contexts(contexts);
    let url = base_url_outcome(declared_server_url(doc), base_url)->Ok_0;
    lemma_built_contexts_count(doc, ops);
    lemma_sorted_contexts(contexts);
    reveal_strlit("project_name");
    reveal_strlit("project_title");
    reveal_strlit("api_version");
    reveal_strlit("agent_instructions");
    reveal_strlit("spec");
    reveal_strlit("spec_file_name");
    reveal_strlit("endpoints");
    let key = "endpoints"@;
    assert(key.len() == 9);
    assert("project_name"@.len() == 12);
    assert("project_title"@.len() == 13);
    assert("api_version"@.len() == 11);
    assert("agent_instructions"@.len() == 18);
    assert("spec"@.len() == 4);
    assert("spec_file_name"@.len() == 14);
    let members = base_context_members(doc, options, listed, url);
    let t = title_members(doc);
    let v = version_members(doc);
    let at = (t.len() + v.len() + 3) as int;
    assert(members[at] == Member { key, value: Json::Array(listed) });
    assert forall|j: int| 0 <= j < at implies (#[trigger] members[j]).key != key by {
        if j < t.len() {
            assert(members[j] == t[j]);
        } else if j < t.len() + v.len() {
            assert(members[j] == v[j - t.len()]);
        }
    }
    lemma_key_index_found(members, key, at);
}

/// A document whose declared server URL is absolute needs no base URL of
/// the caller: wherever its operations have contexts, the base context
/// exists and holds the declared URL unchanged as `base_api_url`.
pub proof fn lemma_absolute_url_in_base_context(
    doc: Json,
    options: Option<TemplateOptionsView>,
    base_url: Option<Seq<char>>,
    url: Seq<char>,
)
    requires
        operations_have_contexts(doc),
        declared_server_url(doc) == Some(url),
        is_web_location(url),
    ensures
        base_context_of(doc, options, base_url) is Ok,
        base_context_of(doc, options, base_url)->Ok_0.get("base_api_url"@) == Some(
            Json::String(url),
        ),
{
    let ops = document_operations(doc)->Some_0;
    let contexts = built_contexts(doc, ops)->Ok_0;
    lemma_base_api_url_member(doc, options, sorted_contexts(contexts), url);
}

/// A document that declares only a path from the root has no base context
/// without a base URL of the caller: wherever its operations have contexts,
/// the outcome is the error that names the missing base URL.
pub proof fn lemma_path_without_base_url_fails(
    doc: Json,
    options: Option<TemplateOptionsView>,
    url: Seq<char>,
)
    requires
        operations_have_contexts(doc),
        declared_server_url(doc) == Some(url),
        "/"@.is_prefix_of(url),
    ensures
        base_context_of(doc, options, None) == Err::<Json, ErrorView>(
            missing_base_url_error(url),
        ),
{
    lemma_path_is_no_web_location(url);
}

/// A Swagger 2 document that names no server and no host declares its base
/// path alone. Where that is a path from the root and the caller gave no
/// base URL, and the operations have contexts, the outcome is the error that
/// names the missing base URL.
pub proof fn lemma_base_path_without_host(
    doc: Json,
    options: Option<TemplateOptionsView>,
    base_path: Seq<char>,
)
    requires
        operations_have_contexts(doc),
        doc.get_array("servers"@) is None,
        doc.get_str("host"@) is None,
        doc.get_str("basePath"@) == Some(base_path),
        "/"@.is_prefix_of(base_path),
    ensures
        declared_server_url(doc) == Some(base_path),
        base_context_of(doc, options, None) == Err::<Json, ErrorView>(
            missing_base_url_error(base_path),
        ),
{
    lemma_path_without_base_url_fails(doc, options, base_path);
}

/// `acc` with each of `members` added whose key `acc` does not hold yet.
pub open spec fn add_missing(acc: Seq<Member>, members: Seq<Member>) -> Seq<Member>
    decreases members.len(),
{
    if members.len() == 0 {
        acc
    } else {
        let head = add_missing(acc, members.drop_last());
        if key_index(head, members.last().key) is Some {
            head
        } else {
            head.push(members.last())
        }
    }
}

/// The members of an object; none for any other value.
pub open spec fn members_of(v: Json) -> Seq<Member> {
    match v {
        Json::Object(m) => m,
        _ => Seq::empty(),
    }
}

/// The context of one file: the values that its manifest entry gives, and
/// those of the base context for every other key.
pub open spec fn merged_context(base: Json, file_context: Json) -> Json {
    Json::Object(add_missing(members_of(file_context), members_of(base)))
}

proof fn lemma_add_missing_lookup(acc: Seq<Member>, members: Seq<Member>, key: Seq<char>)
    ensures
        lookup(add_missing(acc, members), key) == match lookup(acc, key) {
            Some(v) => Some(v),
            None => lookup(members, key),
        },
    decreases members.len(),
{
    if members.len() > 0 {
        let rest = members.drop_last();
        let last = members.last();
        let head = add_missing(acc, rest);
        lemma_add_missing_lookup(acc, rest, key);
        lemma_add_missing_lookup(acc, rest, last.key);
        lemma_key_index_spec(members, key);
        lemma_key_index_spec(rest, key);
        lemma_key_index_spec(head, key);
        lemma_key_index_spec(head, last.key);
        // What the members give to `key`, told from what all but the last give.
        assert(lookup(members, key) == match lookup(rest, key) {
            Some(v) => Some(v),
            None => if last.key == key {
                Some(last.value)
            } else {
                None
            },
        }) by {
            match key_index(rest, key) {
                Some(i) => {
                    assert(members[i] == rest[i]);
                    assert forall|j: int| 0 <= j < i implies (#[trigger] members[j]).key
                        != key by {
                        assert(members[j] == rest[j]);
                    }
                    lemma_key_index_found(members, key, i);
                },
                None => {
                    if last.key == key {
                        assert forall|j: int| 0 <= j < rest.len() implies (
                        #[trigger] members[j]).key != key by {
                            assert(members[j] == rest[j]);
                        }
                        lemma_key_index_found(members, key, rest.len() as int);
                    } else {
                        assert forall|j: int| 0 <= j < members.len() implies (
                        #[trigger] members[j]).key != key by {
                            if j < rest.len() {
                                assert(members[j] == rest[j]);
                            }
                        }
                        lemma_key_index_absent(members, key);
                    }
                },
            }
        }
        if key_index(head, last.key) is None {
            let all = head.push(last);
            match key_index(head, key) {
                Some(i) => {
                    assert(all[i] == head[i]);
                    assert forall|j: int| 0 <= j < i implies (#[trigger] all[j]).key != key by {
                        assert(all[j] == head[j]);
                    }
                    lemma_key_index_found(all, key, i);
                },
                None => {
                    if last.key == key {
                        assert forall|j: int| 0 <= j < head.len() implies (
                        #[trigger] all[j]).key != key by {
                            assert(all[j] == head[j]);
                        }
                        lemma_key_index_found(all, key, head.len() as int);
                    } else {
                        assert forall|j: int| 0 <= j < all.len() implies (
                        #[trigger] all[j]).key != key by {
                            if j < head.len() {
                                assert(all[j] == head[j]);
                            }
                        }
                        lemma_key_index_absent(all, key);
                    }
                },
            }
        }
    } else {
        lemma_key_index_absent(members, key);
    }
}

/// In the context of a file, the values of the manifest entry go over those
/// of the base context: a key gives what the entry gives it, and what the
/// base context gives it only where the entry gives it nothing.
pub proof fn lemma_file_context_precedence(base: Json, file_context: Json, key: Seq<char>)
    ensures
        merged_context(base, file_context).get(key) == match lookup(
            members_of(file_context),
            key,
        ) {
            Some(v) => Some(v),
            None => lookup(members_of(base), key),
        },
{
    lemma_add_missing_lookup(members_of(file_context), members_of(base), key);
}

/// The names among `required` that `context` does not hold, in their order.
pub open spec fn missing_names(context: Seq<Member>, required: Seq<Seq<char>>) -> Seq<Seq<char>>
    decreases required.len(),
{
    if required.len() == 0 {
        Seq::empty()
    } else {
        let head = missing_names(context, required.drop_last());
        if key_index(context, required.last()) is Some {
            head
        } else {
            head.push(required.last())
        }
    }
}

/// The error for a context that lacks required names.
pub open spec fn missing_variables_error(template: Seq<char>, missing: Seq<Seq<char>>)
    -> ErrorView {
    ErrorView::Template(
        "Missing required context variables for template '"@ + template + "': "@ + join(
            missing,
            ", "@,
        ),
    )
}

/// The error for a for-each directive that is not known.
pub open spec fn unknown_directive_error(directive: Seq<char>) -> ErrorView {
    ErrorView::Config("Unknown for_each directive: "@ + directive)
}

/// The base URL of the API, from the URL that the document declares and the
/// base URL that the caller gave.
pub fn resolve_base_url(declared: Option<&str>, base_url: Option<&str>) -> (r: Result<
    String,
    Error,
>)
    ensures
        match r {
            Ok(url) => base_url_outcome(
                match declared {
                    Some(d) => Some(d@),
                    None => None,
                },
                match base_url {
                    Some(b) => Some(b@),
                    None => None,
                },
            ) == Ok::<Seq<char>, ErrorView>(url@),
            Err(e) => base_url_outcome(
                match declared {
                    Some(d) => Some(d@),
                    None => None,
                },
                match base_url {
                    Some(b) => Some(b@),
                    None => None,
                },
            ) == Err::<Seq<char>, ErrorView>(e@),
        },
{
    let url = match declared {
        Some(u) => u,
        None => {
            return Err(
                Error::Config(
                    owned(
                        "No server URL found in OpenAPI spec. Please define at least one server in the 'servers' section (OpenAPI 3.0+) or 'host' field (Swagger 2.0) of your OpenAPI specification",
                    ),
                ),
            );
        },
    };
    if starts_with(url, "http://") || starts_with(url, "https://") {
        return Ok(owned(url));
    }
    if starts_with(url, "/") {
        return match base_url {
            Some(b) => {
                let trimmed = chars_trim_end_char(&to_chars(b), '/');
                let mut out = trimmed;
                chars_extend(&mut out, &to_chars(url));
                Ok(from_chars(&out))
            },
            None => Err(
                Error::Config(
                    concat3(
                        "OpenAPI spec contains a relative server URL '",
                        url,
                        "', but no --base-url was provided. Please provide a base URL (e.g., --base-url https://api.example.com)",
                    ),
                ),
            ),
        };
    }
    Err(
        Error::Config(
            concat3(
                "Invalid server URL format in OpenAPI spec: '",
                url,
                "'. URL must be either a fully qualified URL (https://api.example.com/v1) or a relative path (/api/v1)",
            ),
        ),
    )
}

/// Checks that a context holds every required name; the error names the
/// template and the names that are missing.
pub fn validate_context(template: &str, context: &Vec<(String, JsonValue)>, required: &Vec<&str>)
    -> (r: Result<(), Error>)
    ensures
        match r {
            Ok(_) => missing_names(
                entries_view(context@),
                crate::openapi::fields::names_view(required@),
            ).len() == 0,
            Err(e) => missing_names(
                entries_view(context@),
                crate::openapi::fields::names_view(required@),
            ).len() > 0 && e@ == missing_variables_error(
                template@,
                missing_names(
                    entries_view(context@),
                    crate::openapi::fields::names_view(required@),
                ),
            ),
        },
{
    let ghost names = crate::openapi::fields::names_view(required@);
    let mut missing: Vec<Vec<char>> = Vec::new();
    let mut i: usize = 0;
    assert(parts_view(missing@) =~= Seq::<Seq<char>>::empty());
    while i < required.len()
        invariant
            i <= required.len(),
            names == crate::openapi::fields::names_view(required@),
            parts_view(missing@) == missing_names(entries_view(context@), names.take(i as int)),
        decreases required.len() - i,
    {
        proof {
            assert(names.take(i as int + 1).drop_last() =~= names.take(i as int));
            assert(names.take(i as int + 1).last() == required@[i as int]@);
        }
        let ghost before = parts_view(missing@);
        if crate::json::entries_index(context, required[i]).is_none() {
            let chars = to_chars(required[i]);
            missing.push(chars);
            assert(parts_view(missing@) =~= before.push(required@[i as int]@));
        }
        i += 1;
    }
    assert(names.take(required@.len() as int) =~= names);
    if missing.len() > 0 {
        let listed = from_chars(&chars_join(&missing, &to_chars(", ")));
        let head = concat3("Missing required context variables for template '", template, "': ");
        return Err(Error::Template(concat(head.as_str(), listed.as_str())));
    }
    Ok(())
}

/// The context of one file: the values that its manifest entry gives, and
/// those of the base context for every other key.
pub fn merge_contexts(base_context: &JsonValue, file_context: &JsonValue) -> (r: JsonValue)
    ensures
        r@ == merged_context(base_context@, file_context@),
{
    let mut out: Vec<(String, JsonValue)> = match file_context.as_object() {
        Some(m) => crate::json::clone_entries(m),
        None => {
            let v: Vec<(String, JsonValue)> = Vec::new();
            assert(entries_view(v@) =~= Seq::<Member>::empty());
            v
        },
    };
    match base_context.as_object() {
        Some(base) => {
            let ghost start = entries_view(out@);
            let ghost all = entries_view(base@);
            let mut i: usize = 0;
            while i < base.len()
                invariant
                    i <= base.len(),
                    all == entries_view(base@),
                    entries_view(out@) == add_missing(start, all.take(i as int)),
                decreases base.len() - i,
            {
                proof {
                    assert(all.take(i as int + 1).drop_last() =~= all.take(i as int));
                    assert(all.take(i as int + 1).last() == all[i as int]);
                }
                let ghost before = entries_view(out@);
                if crate::json::entries_index(&out, base[i].0.as_str()).is_none() {
                    out.push((base[i].0.clone(), base[i].1.clone()));
                    assert(entries_view(out@) =~= before.push(all[i as int]));
                }
                i += 1;
            }
            assert(all.take(base@.len() as int) =~= all);
        },
        None => {},
    }
    JsonValue::object(out)
}

/// Builds the base context of a document and gives it together with the
/// operations of the document.
pub fn build_base_context(
    kind: TemplateKind,
    spec: &OpenApiContext,
    options: &Option<TemplateOptions>,
    base_url: Option<&str>,
) -> (r: Result<(JsonValue, Vec<OpenApiOperation>), Error>)
    requires
        has_builder(kind),
    ensures
        match r {
            Ok(found) => base_context_of(
                spec@,
                opt_options(*options),
                match base_url {
                    Some(b) => Some(b@),
                    None => None,
                },
            ) == Ok::<Json, ErrorView>(found.0@) && document_operations(spec@) == Some(
                operations_view(found.1@),
            ),
            Err(e) => base_context_of(
                spec@,
                opt_options(*options),
                match base_url {
                    Some(b) => Some(b@),
                    None => None,
                },
            ) == Err::<Json, ErrorView>(e@),
        },
{
    let mut entries: Vec<(String, JsonValue)> = Vec::new();
    match spec.title() {
        Some(title) => {
            entries.push(member("project_name", JsonValue::String(to_snake_case(title))));
            entries.push(member("project_title", JsonValue::string(title)));
        },
        None => {},
    }
    assert(entries_view(entries@) =~= title_members(spec@));
    match spec.version() {
        Some(version) => {
            entries.push(member("api_version", JsonValue::string(version)));
        },
        None => {},
    }
    assert(entries_view(entries@) =~= title_members(spec@) + version_members(spec@));
    let instructions = match options {
        Some(o) => match &o.agent_instructions {
            Some(v) => v.clone(),
            None => JsonValue::String(String::new()),
        },
        None => JsonValue::String(String::new()),
    };
    let log_file = match options {
        Some(o) => match &o.log_file {
            Some(name) => name.clone(),
            None => owned("mcpgen"),
        },
        None => owned("mcpgen"),
    };
    let port: u16 = match options {
        Some(o) => match o.server_port {
            Some(p) => p,
            None => DEFAULT_SERVER_PORT,
        },
        None => DEFAULT_SERVER_PORT,
    };
    let operations = match spec.parse_operations() {
        Ok(ops) => ops,
        Err(e) => return Err(e),
    };
    let endpoints = match EndpointContext::transform_endpoints(kind, spec, &operations) {
        Ok(contexts) => contexts,
        Err(e) => return Err(e),
    };
    let declared = spec.base_path();
    let url = match resolve_base_url(
        match &declared {
            Some(d) => Some(d.as_str()),
            None => None,
        },
        base_url,
    ) {
        Ok(url) => url,
        Err(e) => return Err(e),
    };
    let ghost head = entries_view(entries@);
    entries.push(member("agent_instructions", instructions));
    entries.push(member("spec", spec.json.clone()));
    entries.push(member("spec_file_name", JsonValue::string("openapi.json")));
    entries.push(member("endpoints", JsonValue::array(endpoints)));
    entries.push(member("log_file", JsonValue::String(log_file)));
    entries.push(member("server_port", JsonValue::Number(JsonNumber::PosInt(port as u64))));
    entries.push(member("base_api_url", JsonValue::String(url)));
    let context = JsonValue::object(entries);
    proof {
        let want = base_context_of(
            spec@,
            opt_options(*options),
            match base_url {
                Some(b) => Some(b@),
                None => None,
            },
        );
        assert(want is Ok);
        assert(context@->Object_0 =~= want->Ok_0->Object_0);
    }
    Ok((context, operations))
}

} // verus!
