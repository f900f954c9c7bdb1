//! The OpenAPI document as loaded, and what is read from it.

use crate::error::{Error, ErrorView};
use crate::json::{
    clone_items, entries_view, items_view, Json, JsonValue, keys_unique, Member, texts, well_keyed,
};
use crate::openapi::model::{
    NamedResponse, OpenApiOperation, OpenApiParameter, OpenApiResponse, operations_view,
    OperationView, parameter_from_json, parameters_view, ParameterView, response_from_json,
    responses_view,
};
use crate::openapi::unique::{
    lemma_document_operations_well_keyed, lemma_operation_responses_well_keyed,
    lemma_path_parameters_well_keyed, lemma_vendor_extensions_unique, operations_well_keyed,
    parameters_well_keyed, responses_well_keyed,
};
use crate::text::{
    chars_replace_char, chars_skip, chars_split_on, chars_start_with, chars_trim_start_char,
    concat3, from_chars, parts_view, replace_char, split_on, starts_with, to_chars, trim_start_char,
};
use vstd::prelude::*;
use vstd::string::StringExecFns;

verus! {

/// A parsed OpenAPI 3 or Swagger 2 document.
#[derive(Debug, PartialEq)]
pub struct OpenApiContext {
    /// The document as it was parsed.
    pub json: JsonValue,
}

impl View for OpenApiContext {
    type V = Json;

    open spec fn view(&self) -> Json {
        self.json@
    }
}

/// The title that the document declares under `info`.
pub open spec fn document_title(doc: Json) -> Option<Seq<char>> {
    match doc.get("info"@) {
        Some(info) => info.get_str("title"@),
        None => None,
    }
}

/// The version that the document declares under `info`.
pub open spec fn document_version(doc: Json) -> Option<Seq<char>> {
    match doc.get("info"@) {
        Some(info) => info.get_str("version"@),
        None => None,
    }
}

/// The URL of the first server of an OpenAPI 3 document.
pub open spec fn first_server_url(doc: Json) -> Option<Seq<char>> {
    match doc.get_array("servers"@) {
        Some(servers) => if servers.len() > 0 {
            servers[0].get_str("url"@)
        } else {
            None
        },
        None => None,
    }
}

/// Whether one of `schemes` is the string `https`.
pub open spec fn offers_https(schemes: Seq<Json>) -> bool {
    exists|i: int| 0 <= i < schemes.len() && schemes[i] == Json::String("https"@)
}

/// The scheme of a Swagger 2 document: `https` where it is offered or
/// nothing usable is declared, else the first declared scheme.
pub open spec fn swagger_scheme(doc: Json) -> Seq<char> {
    match doc.get_array("schemes"@) {
        Some(schemes) => if offers_https(schemes) {
            "https"@
        } else if schemes.len() > 0 && schemes[0] is String {
            schemes[0]->String_0
        } else {
            "https"@
        },
        None => "https"@,
    }
}

/// The URL of a Swagger 2 document: scheme, host and base path. Without a
/// host it is the base path alone, a URL relative to the root of a server
/// that the document does not name.
pub open spec fn swagger_url(doc: Json) -> Option<Seq<char>> {
    match doc.get_str("host"@) {
        Some(host) => {
            let base = match doc.get_str("basePath"@) {
                Some(b) => b,
                None => Seq::empty(),
            };
            Some(swagger_scheme(doc) + "://"@ + host + base)
        },
        None => doc.get_str("basePath"@),
    }
}

/// The server URL that the document declares: that of its first server, or
/// else the one that its Swagger 2 members spell.
pub open spec fn declared_server_url(doc: Json) -> Option<Seq<char>> {
    match first_server_url(doc) {
        Some(url) => Some(url),
        None => swagger_url(doc),
    }
}

/// The segments of a reference: what follows a leading `#/`, cut at each `/`.
pub open spec fn pointer_segments(reference: Seq<char>) -> Seq<Seq<char>> {
    if "#/"@.is_prefix_of(reference) {
        split_on(reference.skip("#/"@.len() as int), '/')
    } else {
        split_on(reference, '/')
    }
}

/// The node reached from `node` by looking up each segment in turn as the
/// member of an object.
pub open spec fn walk(node: Json, segments: Seq<Seq<char>>) -> Option<Json>
    decreases segments.len(),
{
    if segments.len() == 0 {
        Some(node)
    } else {
        match walk(node, segments.drop_last()) {
            Some(n) => n.get(segments.last()),
            None => None,
        }
    }
}

/// The node of `root` that `reference` points to.
pub open spec fn resolve_pointer(root: Json, reference: Seq<char>) -> Option<Json> {
    walk(root, pointer_segments(reference))
}

/// The parameter that one entry of a `parameters` array stands for: the
/// target of its `$ref` where it has one, else the entry itself.
pub open spec fn parameter_of_entry(doc: Json, entry: Json) -> Option<ParameterView> {
    match entry.get_str("$ref"@) {
        Some(reference) => match resolve_pointer(doc, reference) {
            Some(target) => parameter_from_json(target),
            None => None,
        },
        None => parameter_from_json(entry),
    }
}

/// The parameters that the entries stand for, in order; an entry that stands
/// for none is left out.
pub open spec fn parameters_of_entries(doc: Json, entries: Seq<Json>) -> Seq<ParameterView>
    decreases entries.len(),
{
    if entries.len() == 0 {
        Seq::empty()
    } else {
        let head = parameters_of_entries(doc, entries.drop_last());
        match parameter_of_entry(doc, entries.last()) {
            Some(p) => head.push(p),
            None => head,
        }
    }
}

/// The parameters of a path item, where it has a `parameters` array.
pub open spec fn path_parameters(doc: Json, path_item: Json) -> Option<Seq<ParameterView>> {
    match path_item.get_array("parameters"@) {
        Some(entries) => Some(parameters_of_entries(doc, entries)),
        None => None,
    }
}

/// The responses that the members describe, in order; a member that
/// describes none is left out.
pub open spec fn responses_of_members(members: Seq<Member>) -> Seq<NamedResponse>
    decreases members.len(),
{
    if members.len() == 0 {
        Seq::empty()
    } else {
        let head = responses_of_members(members.drop_last());
        match response_from_json(members.last().value) {
            Some(r) => head.push(NamedResponse { status: members.last().key, response: r }),
            None => head,
        }
    }
}

/// The responses of an operation: those under its `responses` object.
pub open spec fn operation_responses(item: Seq<Member>) -> Seq<NamedResponse> {
    match Json::Object(item).get_object("responses"@) {
        Some(members) => responses_of_members(members),
        None => Seq::empty(),
    }
}

/// The members whose name begins with `x-`, in order.
pub open spec fn vendor_extensions_of(item: Seq<Member>) -> Seq<Member>
    decreases item.len(),
{
    if item.len() == 0 {
        Seq::empty()
    } else {
        let head = vendor_extensions_of(item.drop_last());
        if "x-"@.is_prefix_of(item.last().key) {
            head.push(item.last())
        } else {
            head
        }
    }
}

/// The texts of the items that are strings, in order.
pub open spec fn strings_among(items: Seq<Json>) -> Seq<Seq<char>>
    decreases items.len(),
{
    if items.len() == 0 {
        Seq::empty()
    } else {
        let head = strings_among(items.drop_last());
        match items.last() {
            Json::String(s) => head.push(s),
            _ => head,
        }
    }
}

/// The HTTP methods under which a path item can hold an operation, in the
/// order in which they are read.
pub open spec fn http_methods() -> Seq<Seq<char>> {
    seq!["get"@, "post"@, "put"@, "delete"@, "patch"@, "head"@, "options"@, "trace"@]
}

/// The identifier of an operation that declares none: the method, an
/// underscore, and the path without its leading slashes and with `_` for
/// each `/`.
pub open spec fn default_operation_id(method: Seq<char>, path: Seq<char>) -> Seq<char> {
    method + "_"@ + replace_char(trim_start_char(path, '/'), '/', "_"@)
}

/// The operation that `body` describes under `method` of the path item
/// `item` at `path`.
pub open spec fn operation_of(
    doc: Json,
    path: Seq<char>,
    item: Json,
    method: Seq<char>,
    body: Seq<Member>,
) -> OperationView {
    let node = Json::Object(body);
    OperationView {
        id: match node.get_str("operationId"@) {
            Some(id) => id,
            None => default_operation_id(method, path),
        },
        path,
        method,
        tags: match node.get_array("tags"@) {
            Some(items) => Some(strings_among(items)),
            None => None,
        },
        summary: node.get_str("summary"@),
        description: node.get_str("description"@),
        external_docs: node.get("externalDocs"@),
        parameters: path_parameters(doc, item),
        request_body: node.get("requestBody"@),
        responses: operation_responses(body),
        callbacks: node.get("callbacks"@),
        deprecated: node.get_bool("deprecated"@),
        security: node.get_array("security"@),
        servers: node.get_array("servers"@),
        vendor_extensions: vendor_extensions_of(body),
    }
}

/// The operations of one path item under the given methods, in their order.
pub open spec fn operations_of_item(
    doc: Json,
    path: Seq<char>,
    item: Json,
    methods: Seq<Seq<char>>,
) -> Seq<OperationView>
    decreases methods.len(),
{
    if methods.len() == 0 {
        Seq::empty()
    } else {
        let head = operations_of_item(doc, path, item, methods.drop_last());
        match item.get_object(methods.last()) {
            Some(body) => head.push(operation_of(doc, path, item, methods.last(), body)),
            None => head,
        }
    }
}

/// The operations of the given paths, path after path.
pub open spec fn operations_of_paths(doc: Json, paths: Seq<Member>) -> Seq<OperationView>
    decreases paths.len(),
{
    if paths.len() == 0 {
        Seq::empty()
    } else {
        operations_of_paths(doc, paths.drop_last()) + operations_of_item(
            doc,
            paths.last().key,
            paths.last().value,
            http_methods(),
        )
    }
}

/// The operations of a document: one for each path and each HTTP method
/// that the path holds an object for, in the order of the document. A
/// document without a `paths` object has none to give.
pub open spec fn document_operations(doc: Json) -> Option<Seq<OperationView>> {
    match doc.get_object("paths"@) {
        Some(paths) => Some(operations_of_paths(doc, paths)),
        None => None,
    }
}

/// Whether `location` names a resource on the web rather than a file.
pub open spec fn is_web_location(location: Seq<char>) -> bool {
    "http://"@.is_prefix_of(location) || "https://"@.is_prefix_of(location)
}

/// Looks up the node that a reference points to.
pub fn resolve_reference<'a>(root: &'a JsonValue, reference: &str) -> (r: Option<&'a JsonValue>)
    ensures
        match r {
            Some(node) => resolve_pointer(root@, reference@) == Some(node@),
            None => resolve_pointer(root@, reference@) is None,
        },
{
    let v = to_chars(reference);
    let prefix = to_chars("#/");
    let parts = if chars_start_with(&v, &prefix) {
        let body = chars_skip(&v, prefix.len());
        chars_split_on(&body, '/')
    } else {
        chars_split_on(&v, '/')
    };
    let ghost segments = parts_view(parts@);
    assert(segments == pointer_segments(reference@));
    let mut node: &JsonValue = root;
    let mut i: usize = 0;
    while i < parts.len()
        invariant
            i <= parts.len(),
            segments == parts_view(parts@),
            segments == pointer_segments(reference@),
            walk(root@, segments.take(i as int)) == Some(node@),
        decreases parts.len() - i,
    {
        proof {
            assert(segments.take(i as int + 1).drop_last() =~= segments.take(i as int));
            assert(segments.take(i as int + 1).last() == parts@[i as int]@);
        }
        let key = from_chars(&parts[i]);
        match node.get(key.as_str()) {
            Some(next) => {
                node = next;
            },
            None => {
                proof {
                    lemma_walk_stays_none(root@, segments, i as int + 1);
                }
                return None;
            },
        }
        i += 1;
    }
    assert(segments.take(parts@.len() as int) =~= segments);
    Some(node)
}

/// Once a walk has failed, it fails for every longer list of segments.
proof fn lemma_walk_stays_none(node: Json, segments: Seq<Seq<char>>, k: int)
    requires
        0 <= k <= segments.len(),
        walk(node, segments.take(k)) is None,
    ensures
        walk(node, segments) is None,
    decreases segments.len() - k,
{
    if k < segments.len() {
        assert(segments.take(k + 1).drop_last() =~= segments.take(k));
        lemma_walk_stays_none(node, segments, k + 1);
    } else {
        assert(segments.take(k) =~= segments);
    }
}

/// The texts of the items that are strings, in order.
pub fn collect_strings(items: &Vec<JsonValue>) -> (r: Vec<String>)
    ensures
        texts(r@) == strings_among(items_view(items@)),
{
    let mut out: Vec<String> = Vec::new();
    let mut i: usize = 0;
    while i < items.len()
        invariant
            i <= items.len(),
            texts(out@) == strings_among(items_view(items@).take(i as int)),
        decreases items.len() - i,
    {
        proof {
            let all = items_view(items@);
            assert(all.take(i as int + 1).drop_last() =~= all.take(i as int));
            assert(all.take(i as int + 1).last() == items@[i as int]@);
        }
        let ghost before = texts(out@);
        match items[i].as_str() {
            Some(s) => {
                out.push(String::from_str(s));
                assert(texts(out@) =~= before.push(s@));
            },
            None => {},
        }
        i += 1;
    }
    assert(items_view(items@).take(items@.len() as int) =~= items_view(items@));
    out
}

fn default_id(method: &str, path: &str) -> (r: String)
    ensures
        r@ == default_operation_id(method@, path@),
{
    let v = to_chars(path);
    let trimmed = chars_trim_start_char(&v, '/');
    let underscore = to_chars("_");
    let replaced = chars_replace_char(&trimmed, '/', &underscore);
    let tail = from_chars(&replaced);
    concat3(method, "_", tail.as_str())
}

fn http_method_names() -> (r: Vec<&'static str>)
    ensures
        crate::openapi::fields::names_view(r@) == http_methods(),
{
    let names = vec!["get", "post", "put", "delete", "patch", "head", "options", "trace"];
    assert(crate::openapi::fields::names_view(names@) =~= http_methods());
    names
}

fn clone_opt_ref(o: Option<&JsonValue>) -> (r: Option<JsonValue>)
    ensures
        match o {
            Some(v) => crate::json::opt_json(r) == Some(v@),
            None => r is None,
        },
{
    match o {
        Some(v) => Some(v.clone()),
        None => None,
    }
}

fn clone_opt_items_ref(o: Option<&Vec<JsonValue>>) -> (r: Option<Vec<JsonValue>>)
    ensures
        match o {
            Some(v) => crate::json::opt_items(r) == Some(items_view(v@)),
            None => r is None,
        },
{
    match o {
        Some(v) => Some(clone_items(v)),
        None => None,
    }
}

fn owned_opt(o: Option<&str>) -> (r: Option<String>)
    ensures
        match o {
            Some(s) => crate::json::opt_text(r) == Some(s@),
            None => r is None,
        },
{
    match o {
        Some(s) => Some(String::from_str(s)),
        None => None,
    }
}

impl OpenApiContext {
    /// The context of a parsed document.
    pub fn new(json: JsonValue) -> (r: OpenApiContext)
        ensures
            r@ == json@,
    {
        OpenApiContext { json }
    }

    /// Chooses between the two readings of a text: the JSON reading where
    /// there is one, else the YAML reading. Where there is neither, the text
    /// is refused.
    pub fn parse_content(as_json: Option<JsonValue>, as_yaml: Option<JsonValue>) -> (r: Result<
        OpenApiContext,
        String,
    >)
        ensures
            match r {
                Ok(ctx) => match as_json {
                    Some(v) => ctx@ == v@,
                    None => as_yaml is Some && ctx@ == as_yaml->0@,
                },
                Err(msg) => as_json is None && as_yaml is None && msg@
                    == "content is neither valid JSON nor YAML"@,
            },
    {
        match as_json {
            Some(json) => Ok(OpenApiContext { json }),
            None => match as_yaml {
                Some(json) => Ok(OpenApiContext { json }),
                None => Err(String::from_str("content is neither valid JSON nor YAML")),
            },
        }
    }

    /// Whether a location is to be fetched from the web rather than read
    /// from a file.
    pub fn is_url(location: &str) -> (r: bool)
        ensures
            r == is_web_location(location@),
    {
        starts_with(location, "http://") || starts_with(location, "https://")
    }

    /// The document as it was parsed.
    pub fn as_json(&self) -> (r: &JsonValue)
        ensures
            r@ == self@,
    {
        &self.json
    }

    /// The title of the API.
    pub fn title(&self) -> (r: Option<&str>)
        ensures
            match r {
                Some(s) => document_title(self@) == Some(s@),
                None => document_title(self@) is None,
            },
    {
        match self.json.get("info") {
            Some(info) => info.get_str("title"),
            None => None,
        }
    }

    /// The version of the API.
    pub fn version(&self) -> (r: Option<&str>)
        ensures
            match r {
                Some(s) => document_version(self@) == Some(s@),
                None => document_version(self@) is None,
            },
    {
        match self.json.get("info") {
            Some(info) => info.get_str("version"),
            None => None,
        }
    }

    fn scheme(&self) -> (r: String)
        ensures
            r@ == swagger_scheme(self@),
    {
        match self.json.get_array("schemes") {
            Some(schemes) => {
                let mut i: usize = 0;
                while i < schemes.len()
                    invariant
                        i <= schemes.len(),
                        self@.get_array("schemes"@) == Some(items_view(schemes@)),
                        forall|k: int|
                            0 <= k < i ==> items_view(schemes@)[k] != Json::String("https"@),
                    decreases schemes.len() - i,
                {
                    match schemes[i].as_str() {
                        Some(s) => {
                            if crate::text::str_eq(s, "https") {
                                assert(items_view(schemes@)[i as int] == Json::String("https"@));
                                assert(offers_https(items_view(schemes@)));
                                return String::from_str("https");
                            }
                        },
                        None => {},
                    }
                    i += 1;
                }
                if schemes.len() > 0 {
                    match schemes[0].as_str() {
                        Some(s) => String::from_str(s),
                        None => String::from_str("https"),
                    }
                } else {
                    String::from_str("https")
                }
            },
            None => String::from_str("https"),
        }
    }

    /// The server URL that the document declares: the URL of its first
    /// server, or else scheme, host and base path of a Swagger 2 document,
    /// or the base path alone where that document names no host.
    pub fn base_path(&self) -> (r: Option<String>)
        ensures
            crate::json::opt_text(r) == declared_server_url(self@),
    {
        match self.json.get_array("servers") {
            Some(servers) => {
                if servers.len() > 0 {
                    match servers[0].get_str("url") {
                        Some(url) => {
                            return Some(String::from_str(url));
                        },
                        None => {},
                    }
                }
            },
            None => {},
        }
        match self.json.get_str("host") {
            Some(host) => {
                let base = match self.json.get_str("basePath") {
                    Some(b) => b,
                    None => "",
                };
                proof {
                    reveal_strlit("");
                    assert(""@ =~= Seq::<char>::empty());
                }
                let mut out = self.scheme();
                out.append("://");
                out.append(host);
                out.append(base);
                Some(out)
            },
            None => match self.json.get_str("basePath") {
                Some(base) => Some(String::from_str(base)),
                None => None,
            },
        }
    }

    /// The parameters of a path item: those of its `parameters` array, each
    /// entry either a definition or a `$ref` to one. An entry that cannot be
    /// resolved or read is left out.
    ///
    /// Where neither the document nor the path item holds a key twice, each
    /// map of each parameter holds each of its keys once.
    pub fn extract_parameters(&self, path_item: &JsonValue) -> (r: Option<Vec<OpenApiParameter>>)
        ensures
            crate::openapi::model::opt_parameters(r) == path_parameters(self@, path_item@),
            well_keyed(self@) && well_keyed(path_item@) ==> match r {
                Some(params) => parameters_well_keyed(parameters_view(params@)),
                None => true,
            },
    {
        proof {
            if well_keyed(self@) && well_keyed(path_item@) {
                lemma_path_parameters_well_keyed(self@, path_item@);
            }
        }
        let entries = match path_item.get_array("parameters") {
            Some(entries) => entries,
            None => return None,
        };
        let mut out: Vec<OpenApiParameter> = Vec::new();
        let mut i: usize = 0;
        while i < entries.len()
            invariant
                i <= entries.len(),
                parameters_view(out@) == parameters_of_entries(
                    self@,
                    items_view(entries@).take(i as int),
                ),
            decreases entries.len() - i,
        {
            proof {
                let all = items_view(entries@);
                assert(all.take(i as int + 1).drop_last() =~= all.take(i as int));
                assert(all.take(i as int + 1).last() == entries@[i as int]@);
            }
            let ghost before = parameters_view(out@);
            let entry = &entries[i];
            let parsed = match entry.get_str("$ref") {
                Some(reference) => match resolve_reference(&self.json, reference) {
                    Some(target) => OpenApiParameter::from_json(target),
                    None => None,
                },
                None => OpenApiParameter::from_json(entry),
            };
            match parsed {
                Some(p) => {
                    let ghost pv = p@;
                    out.push(p);
                    assert(parameters_view(out@) =~= before.push(pv));
                },
                None => {},
            }
            i += 1;
        }
        assert(items_view(entries@).take(entries@.len() as int) =~= items_view(entries@));
        Some(out)
    }

    /// The responses of an operation by status code. A response that cannot
    /// be read is left out.
    ///
    /// Where the operation holds no key twice, no status code occurs twice,
    /// and each map of each response holds each of its keys once.
    pub fn extract_responses(&self, item: &Vec<(String, JsonValue)>) -> (r: Vec<
        (String, OpenApiResponse),
    >)
        ensures
            responses_view(r@) == operation_responses(entries_view(item@)),
            well_keyed(Json::Object(entries_view(item@))) ==> responses_well_keyed(
                responses_view(r@),
            ),
    {
        proof {
            if well_keyed(Json::Object(entries_view(item@))) {
                lemma_operation_responses_well_keyed(entries_view(item@));
            }
        }
        let mut out: Vec<(String, OpenApiResponse)> = Vec::new();
        let members = match crate::json::entries_get(item, "responses") {
            Some(v) => match v.as_object() {
                Some(m) => m,
                None => {
                    assert(responses_view(out@) =~= Seq::<NamedResponse>::empty());
                    return out;
                },
            },
            None => {
                assert(responses_view(out@) =~= Seq::<NamedResponse>::empty());
                return out;
            },
        };
        let mut i: usize = 0;
        assert(responses_view(out@) =~= Seq::<NamedResponse>::empty());
        while i < members.len()
            invariant
                i <= members.len(),
                responses_view(out@) == responses_of_members(
                    entries_view(members@).take(i as int),
                ),
            decreases members.len() - i,
        {
            proof {
                let all = entries_view(members@);
                assert(all.take(i as int + 1).drop_last() =~= all.take(i as int));
                assert(all.take(i as int + 1).last() == all[i as int]);
            }
            let ghost before = responses_view(out@);
            match OpenApiResponse::from_json(&members[i].1) {
                Some(resp) => {
                    let ghost rv = resp@;
                    out.push((members[i].0.clone(), resp));
                    assert(responses_view(out@) =~= before.push(
                        NamedResponse { status: members@[i as int].0@, response: rv },
                    ));
                },
                None => {},
            }
            i += 1;
        }
        assert(entries_view(members@).take(members@.len() as int) =~= entries_view(members@));
        out
    }

    /// The members of an operation whose name begins with `x-`, each key
    /// once where the operation holds each key once.
    pub fn extract_vendor_extensions(&self, item: &Vec<(String, JsonValue)>) -> (r: Vec<
        (String, JsonValue),
    >)
        ensures
            entries_view(r@) == vendor_extensions_of(entries_view(item@)),
            keys_unique(entries_view(item@)) ==> keys_unique(entries_view(r@)),
    {
        proof {
            if keys_unique(entries_view(item@)) {
                lemma_vendor_extensions_unique(entries_view(item@));
            }
        }
        let mut out: Vec<(String, JsonValue)> = Vec::new();
        let mut i: usize = 0;
        assert(entries_view(out@) =~= Seq::<Member>::empty());
        while i < item.len()
            invariant
                i <= item.len(),
                entries_view(out@) == vendor_extensions_of(entries_view(item@).take(i as int)),
            decreases item.len() - i,
        {
            proof {
                let all = entries_view(item@);
                assert(all.take(i as int + 1).drop_last() =~= all.take(i as int));
                assert(all.take(i as int + 1).last() == all[i as int]);
            }
            let ghost before = entries_view(out@);
            if starts_with(item[i].0.as_str(), "x-") {
                out.push((item[i].0.clone(), item[i].1.clone()));
                assert(entries_view(out@) =~= before.push(entries_view(item@)[i as int]));
            }
            i += 1;
        }
        assert(entries_view(item@).take(item@.len() as int) =~= entries_view(item@));
        out
    }

    fn build_operation(
        &self,
        path: &str,
        item: &JsonValue,
        method: &str,
        body: &Vec<(String, JsonValue)>,
    ) -> (r: OpenApiOperation)
        ensures
            r@ == operation_of(self@, path@, item@, method@, entries_view(body@)),
    {
        let id = match crate::json::entries_get(body, "operationId") {
            Some(v) => match v.as_str() {
                Some(s) => String::from_str(s),
                None => default_id(method, path),
            },
            None => default_id(method, path),
        };
        let tags = match crate::json::entries_get(body, "tags") {
            Some(v) => match v.as_array() {
                Some(items) => Some(collect_strings(items)),
                None => None,
            },
            None => None,
        };
        let summary = match crate::json::entries_get(body, "summary") {
            Some(v) => owned_opt(v.as_str()),
            None => None,
        };
        let description = match crate::json::entries_get(body, "description") {
            Some(v) => owned_opt(v.as_str()),
            None => None,
        };
        let deprecated = match crate::json::entries_get(body, "deprecated") {
            Some(v) => v.as_bool(),
            None => None,
        };
        let security = match crate::json::entries_get(body, "security") {
            Some(v) => clone_opt_items_ref(v.as_array()),
            None => None,
        };
        let servers = match crate::json::entries_get(body, "servers") {
            Some(v) => clone_opt_items_ref(v.as_array()),
            None => None,
        };
        OpenApiOperation {
            id,
            path: String::from_str(path),
            method: String::from_str(method),
            tags,
            summary,
            description,
            external_docs: clone_opt_ref(crate::json::entries_get(body, "externalDocs")),
            parameters: self.extract_parameters(item),
            request_body: clone_opt_ref(crate::json::entries_get(body, "requestBody")),
            responses: self.extract_responses(body),
            callbacks: clone_opt_ref(crate::json::entries_get(body, "callbacks")),
            deprecated,
            security,
            servers,
            vendor_extensions: self.extract_vendor_extensions(body),
        }
    }

    /// The operations of the document: one for each path and each HTTP
    /// method that the path holds an object for, in the order of the
    /// document. A document without a `paths` object is refused.
    ///
    /// Where the document holds no key twice, each operation has its
    /// responses under status codes of their own, and each map of its
    /// parameters and responses holds each of its keys once.
    pub fn parse_operations(&self) -> (r: Result<Vec<OpenApiOperation>, Error>)
        ensures
            match r {
                Ok(ops) => document_operations(self@) == Some(operations_view(ops@)),
                Err(e) => document_operations(self@) is None && e@ == ErrorView::OpenApi(
                    "Missing 'paths' object"@,
                ),
            },
            well_keyed(self@) ==> match r {
                Ok(ops) => operations_well_keyed(operations_view(ops@)),
                Err(_) => true,
            },
    {
        proof {
            if well_keyed(self@) {
                lemma_document_operations_well_keyed(self@);
            }
        }
        let paths = match self.json.get_object("paths") {
            Some(p) => p,
            None => return Err(Error::openapi("Missing 'paths' object")),
        };
        let methods = http_method_names();
        let mut out: Vec<OpenApiOperation> = Vec::new();
        let mut i: usize = 0;
        assert(operations_view(out@) =~= Seq::<OperationView>::empty());
        while i < paths.len()
            invariant
                i <= paths.len(),
                crate::openapi::fields::names_view(methods@) == http_methods(),
                operations_view(out@) == operations_of_paths(
                    self@,
                    entries_view(paths@).take(i as int),
                ),
            decreases paths.len() - i,
        {
            proof {
                let all = entries_view(paths@);
                assert(all.take(i as int + 1).drop_last() =~= all.take(i as int));
                assert(all.take(i as int + 1).last() == all[i as int]);
            }
            let path = paths[i].0.as_str();
            let item = &paths[i].1;
            let ghost start = operations_view(out@);
            let mut k: usize = 0;
            assert(http_methods().take(0) =~= Seq::<Seq<char>>::empty());
            assert(operations_view(out@) =~= start + Seq::<OperationView>::empty());
            while k < methods.len()
                invariant
                    k <= methods.len(),
                    i < paths.len(),
                    path@ == paths@[i as int].0@,
                    item@ == paths@[i as int].1@,
                    crate::openapi::fields::names_view(methods@) == http_methods(),
                    operations_view(out@) == start + operations_of_item(
                        self@,
                        path@,
                        item@,
                        http_methods().take(k as int),
                    ),
                decreases methods.len() - k,
            {
                proof {
                    let all = http_methods();
                    assert(all.take(k as int + 1).drop_last() =~= all.take(k as int));
                    assert(all.take(k as int + 1).last() == methods@[k as int]@);
                }
                let ghost before = operations_view(out@);
                match item.get_object(methods[k]) {
                    Some(body) => {
                        let op = self.build_operation(path, item, methods[k], body);
                        let ghost ov = op@;
                        out.push(op);
                        assert(operations_view(out@) =~= before.push(ov));
                    },
                    None => {},
                }
                k += 1;
            }
            assert(http_methods().take(methods@.len() as int) =~= http_methods());
            i += 1;
        }
        assert(entries_view(paths@).take(paths@.len() as int) =~= entries_view(paths@));
        Ok(out)
    }
}

} // verus!
