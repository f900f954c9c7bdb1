//! Names and texts made safe for file systems, identifiers and doc comments.

use crate::chars::{
    char_is_alphabetic, char_is_alphanumeric, is_alnum, is_alphabetic, is_ascii_alnum,
};
use crate::json::{items_view, Json, JsonValue, opt_text, texts};
use crate::openapi::context::{collect_strings, OpenApiContext, strings_among};
use crate::text::{
    chars_extend, chars_join, chars_lines, chars_replace_char, chars_replace_text, chars_trim,
    chars_words, from_chars, join, lines_of, parts_view, replace_char, replace_text, to_chars,
    trim_white, words,
};
use vstd::prelude::*;

verus! {

/// What `regex::Regex::replace_all` returns for the regular expression
/// `pattern`, the text `haystack` and the replacement `replacement`; `None`
/// where `regex::Regex::new` refuses the pattern.
pub uninterp spec fn regex_replaced(
    pattern: Seq<char>,
    haystack: Seq<char>,
    replacement: Seq<char>,
) -> Option<Seq<char>>;

/// `regex::Regex::new`, then `regex::Regex::replace_all`: every match of
/// `pattern` in `haystack`, read from the left and not overlapping, replaced
/// by `replacement`. The result is a function of the three texts; it is
/// `None` exactly when the pattern does not compile.
#[verifier::external_body]
pub(crate) fn regex_replace_all(pattern: &str, haystack: &str, replacement: &str) -> (r: Option<
    String,
>)
    ensures
        opt_text(r) == regex_replaced(pattern@, haystack@, replacement@),
{
    regex::Regex::new(pattern).ok().map(|re| re.replace_all(haystack, replacement).into_owned())
}

/// Whether a character may stand in a file name: an ASCII letter or digit,
/// or an underscore.
pub open spec fn is_file_char(c: char) -> bool {
    is_ascii_alnum(c) || c == '_'
}

/// `name` with an underscore for each character that may not stand in a file
/// name.
pub open spec fn file_name_of(name: Seq<char>) -> Seq<char> {
    Seq::new(name.len(), |i: int| if is_file_char(name[i]) {
        name[i]
    } else {
        '_'
    })
}

/// The characters of an endpoint name: braces are dropped, every other
/// character that is no letter, digit or underscore becomes an underscore.
pub open spec fn endpoint_chars(s: Seq<char>) -> Seq<char>
    decreases s.len(),
{
    if s.len() == 0 {
        Seq::empty()
    } else {
        let head = endpoint_chars(s.drop_last());
        let c = s.last();
        if c == '{' || c == '}' {
            head
        } else if is_alnum(c) || c == '_' {
            head.push(c)
        } else {
            head.push('_')
        }
    }
}

/// The module name for an endpoint: its characters, behind `m_` where they
/// would begin with neither a letter nor an underscore, and `root` where
/// none is left.
pub open spec fn endpoint_name_of(endpoint: Seq<char>) -> Seq<char> {
    let body = endpoint_chars(endpoint);
    if body.len() == 0 {
        "root"@
    } else if !is_alphabetic(body[0]) && body[0] != '_' {
        "m_"@ + body
    } else {
        body
    }
}

/// The plain character that stands for a typographic quote or dash.
pub open spec fn plain_punctuation(c: char) -> char {
    if c == '\u{2018}' || c == '\u{2019}' {
        '\''
    } else if c == '\u{201C}' || c == '\u{201D}' {
        '"'
    } else if c == '\u{2014}' {
        '-'
    } else {
        c
    }
}

/// A line before its white space is collapsed: tabs as spaces, typographic
/// quotes and dashes as plain ones, no white space at either end.
pub open spec fn prepared_line(line: Seq<char>) -> Seq<char> {
    let spaced = replace_char(line, '\t', " "@);
    trim_white(Seq::new(spaced.len(), |i: int| plain_punctuation(spaced[i])))
}

/// A line after its white space was collapsed: no spaces around hyphens,
/// backslashes and quotes escaped, braces and brackets as character
/// references.
pub open spec fn finished_line(collapsed: Seq<char>) -> Seq<char> {
    let tight = replace_text(
        replace_text(replace_text(collapsed, " - "@, "-"@), "- "@, "-"@),
        " -"@,
        "-"@,
    );
    let escaped = replace_char(replace_char(tight, '\\', "\\\\"@), '"', "\\\""@);
    replace_char(
        replace_char(
            replace_char(replace_char(escaped, '{', "&#123;"@), '}', "&#125;"@),
            '[',
            "&#91;"@,
        ),
        ']',
        "&#93;"@,
    )
}

/// A prepared line with every run of white space as one space.
pub open spec fn collapsed_line(prepared: Seq<char>) -> Seq<char> {
    match regex_replaced("\\s+"@, prepared, " "@) {
        Some(t) => t,
        None => prepared,
    }
}

/// One line, made safe.
pub open spec fn markdown_line(line: Seq<char>) -> Seq<char> {
    finished_line(collapsed_line(prepared_line(line)))
}

/// The safe forms of the given lines that are not empty, in order.
pub open spec fn markdown_lines(lines: Seq<Seq<char>>) -> Seq<Seq<char>>
    decreases lines.len(),
{
    if lines.len() == 0 {
        Seq::empty()
    } else {
        let head = markdown_lines(lines.drop_last());
        let line = markdown_line(lines.last());
        if line.len() > 0 {
            head.push(line)
        } else {
            head
        }
    }
}

/// A Markdown text made safe for a doc comment: its lines made safe, the
/// empty ones dropped, the rest joined by single spaces.
pub open spec fn markdown_of(input: Seq<char>) -> Seq<char> {
    join(markdown_lines(lines_of(input)), " "@)
}

/// A text with each run of white space as one space and none at either end.
pub open spec fn single_spaced(s: Seq<char>) -> Seq<char> {
    join(words(s), " "@)
}

/// The summary that the `get` operation of a path item declares, single
/// spaced; empty where it declares none.
pub open spec fn metadata_text(path_item: Json, key: Seq<char>) -> Seq<char> {
    match path_item.get_object("get"@) {
        Some(get) => match Json::Object(get).get_str(key) {
            Some(s) => single_spaced(s),
            None => Seq::empty(),
        },
        None => Seq::empty(),
    }
}

/// The tags that the `get` operation of a path item declares.
pub open spec fn metadata_tags(path_item: Json) -> Seq<Seq<char>> {
    match path_item.get_object("get"@) {
        Some(get) => match Json::Object(get).get_array("tags"@) {
            Some(items) => strings_among(items),
            None => Seq::empty(),
        },
        None => Seq::empty(),
    }
}

/// Whether a parameter definition declares the location `path`.
pub open spec fn is_path_parameter(p: Json) -> bool {
    p.get_str("in"@) == Some("path"@)
}

/// The definitions among `params` that are path parameters, or those that
/// are not, in their order.
pub open spec fn parameters_where(params: Seq<Json>, in_path: bool) -> Seq<Json>
    decreases params.len(),
{
    if params.len() == 0 {
        Seq::empty()
    } else {
        let head = parameters_where(params.drop_last(), in_path);
        if is_path_parameter(params.last()) == in_path {
            head.push(params.last())
        } else {
            head
        }
    }
}

/// The order in which a handler takes its parameters: the path parameters
/// first, then all others, each group in the order of the document.
pub open spec fn handler_order(params: Seq<Json>) -> Seq<Json> {
    parameters_where(params, true) + parameters_where(params, false)
}

/// The parameter definitions of the `get` operation of a path item.
pub open spec fn get_parameters(path_item: Json) -> Seq<Json> {
    match path_item.get_object("get"@) {
        Some(get) => match Json::Object(get).get_array("parameters"@) {
            Some(items) => items,
            None => Seq::empty(),
        },
        None => Seq::empty(),
    }
}

proof fn lemma_parameters_where_members(params: Seq<Json>, in_path: bool)
    ensures
        forall|j: int|
            0 <= j < parameters_where(params, in_path).len() ==> is_path_parameter(
                #[trigger] parameters_where(params, in_path)[j],
            ) == in_path,
        parameters_where(params, in_path).to_multiset().add(
            parameters_where(params, !in_path).to_multiset(),
        ) =~= params.to_multiset(),
    decreases params.len(),
{
    broadcast use vstd::seq_lib::group_to_multiset_ensures;

    if params.len() > 0 {
        lemma_parameters_where_members(params.drop_last(), in_path);
        assert(params =~= params.drop_last().push(params.last()));
    } else {
        assert(parameters_where(params, in_path) =~= params);
        assert(parameters_where(params, !in_path) =~= params);
    }
}

/// In the handler order no other parameter comes before a path parameter,
/// and the parameters are those of the document, each as often as there.
pub proof fn lemma_handler_order_path_first(params: Seq<Json>)
    ensures
        forall|i: int, j: int|
            0 <= i < j < handler_order(params).len() && is_path_parameter(
                #[trigger] handler_order(params)[j],
            ) ==> is_path_parameter(#[trigger] handler_order(params)[i]),
        handler_order(params).to_multiset() =~= params.to_multiset(),
{
    broadcast use vstd::seq_lib::group_to_multiset_ensures;

    lemma_parameters_where_members(params, true);
    lemma_parameters_where_members(params, false);
    let first = parameters_where(params, true);
    let second = parameters_where(params, false);
    vstd::seq_lib::lemma_multiset_commutative(first, second);
    assert forall|i: int, j: int|
        0 <= i < j < handler_order(params).len() && is_path_parameter(
            #[trigger] handler_order(params)[j],
        ) implies is_path_parameter(#[trigger] handler_order(params)[i]) by {
        if j >= first.len() {
            assert(handler_order(params)[j] == second[j - first.len()]);
        }
        assert(handler_order(params)[i] == first[i]);
    }
}

fn map_plain_punctuation(v: &Vec<char>) -> (r: Vec<char>)
    ensures
        r@ == Seq::new(v@.len(), |i: int| plain_punctuation(v@[i])),
{
    let mut out: Vec<char> = Vec::new();
    let mut i: usize = 0;
    while i < v.len()
        invariant
            i <= v.len(),
            out@.len() == i,
            forall|k: int| 0 <= k < i ==> out@[k] == plain_punctuation(v@[k]),
        decreases v.len() - i,
    {
        let c = v[i];
        let mapped = if c == '\u{2018}' || c == '\u{2019}' {
            '\''
        } else if c == '\u{201C}' || c == '\u{201D}' {
            '"'
        } else if c == '\u{2014}' {
            '-'
        } else {
            c
        };
        out.push(mapped);
        i += 1;
    }
    assert(out@ =~= Seq::new(v@.len(), |i: int| plain_punctuation(v@[i])));
    out
}

/// A line before its white space is collapsed: tabs as spaces, typographic
/// quotes and dashes as plain ones, no white space at either end.
pub fn prepare_markdown_line(line: &str) -> (r: String)
    ensures
        r@ == prepared_line(line@),
{
    let v = to_chars(line);
    let space = to_chars(" ");
    let spaced = chars_replace_char(&v, '\t', &space);
    let plain = map_plain_punctuation(&spaced);
    let trimmed = chars_trim(&plain);
    from_chars(&trimmed)
}

/// A line after its white space was collapsed: no spaces around hyphens,
/// backslashes and quotes escaped, braces and brackets as character
/// references.
pub fn finish_markdown_line(collapsed: &str) -> (r: String)
    ensures
        r@ == finished_line(collapsed@),
{
    proof {
        reveal_strlit(" - ");
        reveal_strlit("- ");
        reveal_strlit(" -");
    }
    let v = to_chars(collapsed);
    let hyphen = to_chars("-");
    let a = chars_replace_text(&v, &to_chars(" - "), &hyphen);
    let b = chars_replace_text(&a, &to_chars("- "), &hyphen);
    let c = chars_replace_text(&b, &to_chars(" -"), &hyphen);
    let d = chars_replace_char(&c, '\\', &to_chars("\\\\"));
    let e = chars_replace_char(&d, '"', &to_chars("\\\""));
    let f = chars_replace_char(&e, '{', &to_chars("&#123;"));
    let g = chars_replace_char(&f, '}', &to_chars("&#125;"));
    let h = chars_replace_char(&g, '[', &to_chars("&#91;"));
    let k = chars_replace_char(&h, ']', &to_chars("&#93;"));
    from_chars(&k)
}

fn sanitize_markdown_line(line: &str) -> (r: String)
    ensures
        r@ == markdown_line(line@),
{
    let prepared = prepare_markdown_line(line);
    let collapsed = match regex_replace_all("\\s+", prepared.as_str(), " ") {
        Some(t) => t,
        None => prepared,
    };
    finish_markdown_line(collapsed.as_str())
}

fn single_space(s: &str) -> (r: String)
    ensures
        r@ == single_spaced(s@),
{
    let v = to_chars(s);
    let parts = chars_words(&v);
    let out = chars_join(&parts, &to_chars(" "));
    from_chars(&out)
}

impl OpenApiContext {
    /// A name that is safe as a file name everywhere: every character that
    /// is no ASCII letter, digit or underscore becomes an underscore.
    pub fn sanitize_filename(name: &str) -> (r: String)
        ensures
            r@ == file_name_of(name@),
    {
        let v = to_chars(name);
        let mut out: Vec<char> = Vec::new();
        let mut i: usize = 0;
        while i < v.len()
            invariant
                i <= v.len(),
                out@.len() == i,
                forall|k: int|
                    0 <= k < i ==> out@[k] == if is_file_char(v@[k]) {
                        v@[k]
                    } else {
                        '_'
                    },
            decreases v.len() - i,
        {
            let c = v[i];
            if ('a' <= c && c <= 'z') || ('A' <= c && c <= 'Z') || ('0' <= c && c <= '9') || c
                == '_' {
                out.push(c);
            } else {
                out.push('_');
            }
            i += 1;
        }
        assert(out@ =~= file_name_of(name@));
        from_chars(&out)
    }

    /// A name for an endpoint that is valid as the name of a module: braces
    /// are dropped, every other character that is no letter, digit or
    /// underscore becomes an underscore; `m_` goes before a name that would
    /// begin with neither a letter nor an underscore; the empty name becomes
    /// `root`.
    pub fn sanitize_endpoint_name(endpoint: &str) -> (r: String)
        ensures
            r@ == endpoint_name_of(endpoint@),
    {
        let v = to_chars(endpoint);
        let mut out: Vec<char> = Vec::new();
        let mut i: usize = 0;
        while i < v.len()
            invariant
                i <= v.len(),
                out@ == endpoint_chars(v@.take(i as int)),
            decreases v.len() - i,
        {
            proof {
                assert(v@.take(i as int + 1).drop_last() =~= v@.take(i as int));
                assert(v@.take(i as int + 1).last() == v@[i as int]);
            }
            let c = v[i];
            if c == '{' || c == '}' {
            } else if char_is_alphanumeric(c) || c == '_' {
                out.push(c);
            } else {
                out.push('_');
            }
            i += 1;
        }
        assert(v@.take(v@.len() as int) =~= v@);
        if out.len() == 0 {
            return String::from_str("root");
        }
        if !char_is_alphabetic(out[0]) && out[0] != '_' {
            let mut prefixed = to_chars("m_");
            chars_extend(&mut prefixed, &out);
            return from_chars(&prefixed);
        }
        from_chars(&out)
    }

    /// A Markdown text made safe for doc comments: each line is cleaned of
    /// tabs, typographic quotes and surplus white space, and has its special
    /// characters escaped; empty lines are dropped; the rest is joined by
    /// single spaces.
    pub fn sanitize_markdown(input: &str) -> (r: String)
        ensures
            r@ == markdown_of(input@),
    {
        let v = to_chars(input);
        let lines = chars_lines(&v);
        let mut kept: Vec<Vec<char>> = Vec::new();
        let mut i: usize = 0;
        assert(parts_view(kept@) =~= Seq::<Seq<char>>::empty());
        while i < lines.len()
            invariant
                i <= lines.len(),
                parts_view(kept@) == markdown_lines(parts_view(lines@).take(i as int)),
            decreases lines.len() - i,
        {
            proof {
                let all = parts_view(lines@);
                assert(all.take(i as int + 1).drop_last() =~= all.take(i as int));
                assert(all.take(i as int + 1).last() == lines@[i as int]@);
            }
            let ghost before = parts_view(kept@);
            let text = from_chars(&lines[i]);
            let safe = sanitize_markdown_line(text.as_str());
            let chars = to_chars(safe.as_str());
            if chars.len() > 0 {
                kept.push(chars);
                assert(parts_view(kept@) =~= before.push(safe@));
            }
            i += 1;
        }
        assert(parts_view(lines@).take(lines@.len() as int) =~= parts_view(lines@));
        let out = chars_join(&kept, &to_chars(" "));
        from_chars(&out)
    }

    /// The summary, the description and the tags of the `get` operation of a
    /// path item; the two texts single spaced.
    pub fn extract_operation_metadata(path_item: &JsonValue) -> (r: (String, String, Vec<String>))
        ensures
            r.0@ == metadata_text(path_item@, "summary"@),
            r.1@ == metadata_text(path_item@, "description"@),
            texts(r.2@) == metadata_tags(path_item@),
    {
        let get = match path_item.get_object("get") {
            Some(g) => g,
            None => {
                let tags: Vec<String> = Vec::new();
                assert(texts(tags@) =~= Seq::<Seq<char>>::empty());
                return (String::new(), String::new(), tags);
            },
        };
        let summary = match crate::json::entries_get(get, "summary") {
            Some(v) => match v.as_str() {
                Some(s) => single_space(s),
                None => String::new(),
            },
            None => String::new(),
        };
        let description = match crate::json::entries_get(get, "description") {
            Some(v) => match v.as_str() {
                Some(s) => single_space(s),
                None => String::new(),
            },
            None => String::new(),
        };
        let tags = match crate::json::entries_get(get, "tags") {
            Some(v) => match v.as_array() {
                Some(items) => collect_strings(items),
                None => {
                    let t: Vec<String> = Vec::new();
                    assert(texts(t@) =~= Seq::<Seq<char>>::empty());
                    t
                },
            },
            None => {
                let t: Vec<String> = Vec::new();
                assert(texts(t@) =~= Seq::<Seq<char>>::empty());
                t
            },
        };
        (summary, description, tags)
    }

    /// The parameter definitions of the `get` operation of a path item in
    /// the order in which a handler takes them: path parameters first.
    pub fn extract_parameters_for_handler(&self, path_item: &JsonValue) -> (r: Vec<JsonValue>)
        ensures
            items_view(r@) == handler_order(get_parameters(path_item@)),
    {
        let mut out: Vec<JsonValue> = Vec::new();
        let params = match path_item.get_object("get") {
            Some(get) => match crate::json::entries_get(get, "parameters") {
                Some(v) => match v.as_array() {
                    Some(items) => items,
                    None => {
                        assert(items_view(out@) =~= handler_order(Seq::<Json>::empty()));
                        return out;
                    },
                },
                None => {
                    assert(items_view(out@) =~= handler_order(Seq::<Json>::empty()));
                    return out;
                },
            },
            None => {
                assert(items_view(out@) =~= handler_order(Seq::<Json>::empty()));
                return out;
            },
        };
        let ghost all = items_view(params@);
        let mut i: usize = 0;
        assert(items_view(out@) =~= Seq::<Json>::empty());
        while i < params.len()
            invariant
                i <= params.len(),
                all == items_view(params@),
                items_view(out@) == parameters_where(all.take(i as int), true),
            decreases params.len() - i,
        {
            proof {
                assert(all.take(i as int + 1).drop_last() =~= all.take(i as int));
                assert(all.take(i as int + 1).last() == params@[i as int]@);
            }
            let ghost before = items_view(out@);
            let is_path = match params[i].get_str("in") {
                Some(s) => crate::text::str_eq(s, "path"),
                None => false,
            };
            if is_path {
                out.push(params[i].clone());
                assert(items_view(out@) =~= before.push(params@[i as int]@));
            }
            i += 1;
        }
        assert(all.take(params@.len() as int) =~= all);
        let ghost first = items_view(out@);
        let mut k: usize = 0;
        assert(items_view(out@) =~= first + Seq::<Json>::empty());
        while k < params.len()
            invariant
                k <= params.len(),
                all == items_view(params@),
                items_view(out@) == first + parameters_where(all.take(k as int), false),
            decreases params.len() - k,
        {
            proof {
                assert(all.take(k as int + 1).drop_last() =~= all.take(k as int));
                assert(all.take(k as int + 1).last() == params@[k as int]@);
            }
            let ghost before = items_view(out@);
            let is_path = match params[k].get_str("in") {
                Some(s) => crate::text::str_eq(s, "path"),
                None => false,
            };
            if !is_path {
                out.push(params[k].clone());
                assert(items_view(out@) =~= before.push(params@[k as int]@));
            }
            k += 1;
        }
        assert(all.take(params@.len() as int) =~= all);
        out
    }
}

} // verus!
