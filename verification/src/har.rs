//! Endpoints read from recorded traffic in the HAR format.
//!
//! Only the method and the path of each recorded request are of interest.

use crate::chars::{str_to_uppercase, uppercase_of};
use crate::error::{Error, ErrorView};
use crate::json::{items_view, Json, JsonValue};
use crate::text::str_eq;
use crate::web::{path_of_url, url_path};
use vstd::prelude::*;

verus! {

/// One recorded request.
#[derive(Debug, PartialEq)]
pub struct HarEntry {
    pub method: String,
    pub url: String,
}

/// The model of a [`HarEntry`].
pub struct HarEntryView {
    pub method: Seq<char>,
    pub url: Seq<char>,
}

impl View for HarEntry {
    type V = HarEntryView;

    open spec fn view(&self) -> HarEntryView {
        HarEntryView { method: self.method@, url: self.url@ }
    }
}

/// The recorded requests of a HAR file.
#[derive(Debug, PartialEq)]
pub struct HarContext {
    pub entries: Vec<HarEntry>,
}

/// One call of an API: a method in capitals and a path.
#[derive(Debug, PartialEq, Eq)]
pub struct HarOperation {
    pub method: String,
    pub path: String,
}

/// The model of a [`HarOperation`].
pub struct HarOperationView {
    pub method: Seq<char>,
    pub path: Seq<char>,
}

impl View for HarOperation {
    type V = HarOperationView;

    open spec fn view(&self) -> HarOperationView {
        HarOperationView { method: self.method@, path: self.path@ }
    }
}

/// The models of a list of recorded requests.
pub open spec fn har_entries_view(v: Seq<HarEntry>) -> Seq<HarEntryView> {
    Seq::new(v.len(), |i: int| v[i]@)
}

/// The models of a list of calls.
pub open spec fn har_operations_view(v: Seq<HarOperation>) -> Seq<HarOperationView> {
    Seq::new(v.len(), |i: int| v[i]@)
}

impl View for HarContext {
    type V = Seq<HarEntryView>;

    open spec fn view(&self) -> Seq<HarEntryView> {
        har_entries_view(self.entries@)
    }
}

/// The request that one entry of a HAR file records: the `method` and the
/// `url` of its `request`, both strings.
pub open spec fn har_entry_of(entry: Json) -> Option<HarEntryView> {
    match entry.get("request"@) {
        Some(request) => match (request.as_object(), request.get("method"@), request.get("url"@)) {
            (Some(_), Some(Json::String(method)), Some(Json::String(url))) => Some(
                HarEntryView { method, url },
            ),
            _ => None,
        },
        None => None,
    }
}

/// The requests that the entries record; `None` where one entry records
/// none.
pub open spec fn har_entries_of(entries: Seq<Json>) -> Option<Seq<HarEntryView>>
    decreases entries.len(),
{
    if entries.len() == 0 {
        Some(Seq::empty())
    } else {
        match (har_entries_of(entries.drop_last()), har_entry_of(entries.last())) {
            (Some(head), Some(e)) => Some(head.push(e)),
            _ => None,
        }
    }
}

/// The requests that a HAR document records under `log.entries`.
pub open spec fn har_of(doc: Json) -> Option<Seq<HarEntryView>> {
    match doc.get("log"@) {
        Some(log) => match log.get_array("entries"@) {
            Some(entries) => har_entries_of(entries),
            None => None,
        },
        None => None,
    }
}

/// Whether `ops` holds the call of `method` at `path`.
pub open spec fn holds_operation(ops: Seq<HarOperationView>, method: Seq<char>, path: Seq<char>)
    -> bool {
    exists|i: int| 0 <= i < ops.len() && ops[i].method == method && ops[i].path == path
}

/// `ops` with the call of `method` at `path` at its end, unless `ops` holds
/// that call already.
pub open spec fn with_call(ops: Seq<HarOperationView>, method: Seq<char>, path: Seq<char>) -> Seq<
    HarOperationView,
> {
    if holds_operation(ops, method, path) {
        ops
    } else {
        ops.push(HarOperationView { method, path })
    }
}

/// The distinct calls among the requests, each at its first occurrence: the
/// method in capitals and the path of the URL. A request whose URL cannot
/// be parsed is passed over.
pub open spec fn unique_operations_of(entries: Seq<HarEntryView>) -> Seq<HarOperationView>
    decreases entries.len(),
{
    if entries.len() == 0 {
        Seq::empty()
    } else {
        let head = unique_operations_of(entries.drop_last());
        match url_path(entries.last().url) {
            Some(path) => with_call(head, uppercase_of(entries.last().method), path),
            None => head,
        }
    }
}

/// No call occurs twice among the distinct calls.
pub proof fn lemma_unique_operations_distinct(entries: Seq<HarEntryView>)
    ensures
        forall|i: int, j: int|
            0 <= i < j < unique_operations_of(entries).len() ==> (
            #[trigger] unique_operations_of(entries)[i]) != (#[trigger] unique_operations_of(
                entries,
            )[j]),
    decreases entries.len(),
{
    if entries.len() > 0 {
        lemma_unique_operations_distinct(entries.drop_last());
        let head = unique_operations_of(entries.drop_last());
        let all = unique_operations_of(entries);
        assert forall|i: int, j: int| 0 <= i < j < all.len() implies (#[trigger] all[i]) != (
        #[trigger] all[j]) by {
            if j < head.len() {
                assert(all[i] == head[i] && all[j] == head[j]);
            } else {
                assert(all[i] == head[i]);
                assert(!holds_operation(head, all[j].method, all[j].path));
            }
        }
    }
}

fn read_entry(entry: &JsonValue) -> (r: Option<HarEntry>)
    ensures
        match r {
            Some(e) => har_entry_of(entry@) == Some(e@),
            None => har_entry_of(entry@) is None,
        },
{
    let request = match entry.get("request") {
        Some(r) => r,
        None => return None,
    };
    if request.as_object().is_none() {
        return None;
    }
    let method = match request.get("method") {
        Some(JsonValue::String(m)) => m.clone(),
        _ => return None,
    };
    let url = match request.get("url") {
        Some(JsonValue::String(u)) => u.clone(),
        _ => return None,
    };
    Some(HarEntry { method, url })
}

impl HarContext {
    /// Reads the recorded requests from a HAR document. A document without
    /// `log.entries`, or with an entry that lacks the method or the URL of
    /// its request, is refused.
    pub fn from_json(doc: &JsonValue) -> (r: Result<HarContext, Error>)
        ensures
            match r {
                Ok(ctx) => har_of(doc@) == Some(ctx@),
                Err(e) => har_of(doc@) is None && e@ == ErrorView::Config(
                    "Failed to parse HAR"@,
                ),
            },
    {
        let entries = match doc.get("log") {
            Some(log) => match log.get_array("entries") {
                Some(entries) => entries,
                None => return Err(Error::config("Failed to parse HAR")),
            },
            None => return Err(Error::config("Failed to parse HAR")),
        };
        let ghost all = items_view(entries@);
        let mut out: Vec<HarEntry> = Vec::new();
        let mut i: usize = 0;
        assert(har_entries_view(out@) =~= Seq::<HarEntryView>::empty());
        while i < entries.len()
            invariant
                i <= entries.len(),
                all == items_view(entries@),
                har_of(doc@) == har_entries_of(all),
                har_entries_of(all.take(i as int)) == Some(har_entries_view(out@)),
            decreases entries.len() - i,
        {
            proof {
                assert(all.take(i as int + 1).drop_last() =~= all.take(i as int));
                assert(all.take(i as int + 1).last() == entries@[i as int]@);
            }
            let ghost before = har_entries_view(out@);
            match read_entry(&entries[i]) {
                Some(e) => {
                    let ghost ev = e@;
                    out.push(e);
                    assert(har_entries_view(out@) =~= before.push(ev));
                },
                None => {
                    proof {
                        lemma_har_entries_fail(all, i as int + 1);
                    }
                    return Err(Error::config("Failed to parse HAR"));
                },
            }
            i += 1;
        }
        assert(all.take(entries@.len() as int) =~= all);
        Ok(HarContext { entries: out })
    }

    /// Adds the call of `method` at `path` to the calls, unless they hold it
    /// already.
    pub fn record_call(ops: &mut Vec<HarOperation>, method: String, path: String)
        ensures
            har_operations_view(final(ops)@) == with_call(
                har_operations_view(old(ops)@),
                method@,
                path@,
            ),
    {
        if !holds(ops, method.as_str(), path.as_str()) {
            let ghost before = har_operations_view(ops@);
            let ghost added = HarOperationView { method: method@, path: path@ };
            ops.push(HarOperation { method, path });
            assert(har_operations_view(ops@) =~= before.push(added));
        }
    }

    /// The distinct calls among the recorded requests, each at its first
    /// occurrence: the method in capitals and the path of the URL.
    pub fn unique_operations(&self) -> (r: Vec<HarOperation>)
        ensures
            har_operations_view(r@) == unique_operations_of(self@),
    {
        let ghost all = har_entries_view(self.entries@);
        let mut out: Vec<HarOperation> = Vec::new();
        let mut i: usize = 0;
        assert(har_operations_view(out@) =~= Seq::<HarOperationView>::empty());
        while i < self.entries.len()
            invariant
                i <= self.entries.len(),
                all == har_entries_view(self.entries@),
                har_operations_view(out@) == unique_operations_of(all.take(i as int)),
            decreases self.entries.len() - i,
        {
            proof {
                assert(all.take(i as int + 1).drop_last() =~= all.take(i as int));
                assert(all.take(i as int + 1).last() == self.entries@[i as int]@);
            }
            match path_of_url(self.entries[i].url.as_str()) {
                Some(path) => {
                    let method = str_to_uppercase(self.entries[i].method.as_str());
                    HarContext::record_call(&mut out, method, path);
                },
                None => {},
            }
            i += 1;
        }
        assert(all.take(self.entries@.len() as int) =~= all);
        out
    }
}

fn holds(ops: &Vec<HarOperation>, method: &str, path: &str) -> (r: bool)
    ensures
        r == holds_operation(har_operations_view(ops@), method@, path@),
{
    let mut i: usize = 0;
    while i < ops.len()
        invariant
            i <= ops.len(),
            forall|k: int|
                0 <= k < i ==> !(har_operations_view(ops@)[k].method == method@
                    && har_operations_view(ops@)[k].path == path@),
        decreases ops.len() - i,
    {
        if str_eq(ops[i].method.as_str(), method) && str_eq(ops[i].path.as_str(), path) {
            assert(har_operations_view(ops@)[i as int].method == method@);
            return true;
        }
        i += 1;
    }
    false
}

proof fn lemma_har_entries_fail(entries: Seq<Json>, k: int)
    requires
        0 <= k <= entries.len(),
        har_entries_of(entries.take(k)) is None,
    ensures
        har_entries_of(entries) is None,
    decreases entries.len() - k,
{
    if k < entries.len() {
        assert(entries.take(k + 1).drop_last() =~= entries.take(k));
        lemma_har_entries_fail(entries, k + 1);
    } else {
        assert(entries.take(k) =~= entries);
    }
}

} // verus!
