//! Builders of the endpoint context, one for each target language.

pub mod rust;

use crate::builders::rust::{rust_endpoint_of, rust_endpoint_to_json, RustEndpointContextBuilder};
use crate::error::{Error, ErrorView};
use crate::json::{items_view, Json, JsonValue};
use crate::openapi::context::OpenApiContext;
use crate::openapi::model::{OpenApiOperation, operations_view, OperationView};
use crate::templates::kind::TemplateKind;
use crate::text::{chars_le, lemma_text_le_total, lemma_text_le_transitive, text_le, to_chars};
use vstd::prelude::*;

verus! {

/// The model of the outcome of a build.
pub open spec fn build_outcome(r: Result<JsonValue, Error>) -> Result<Json, ErrorView> {
    match r {
        Ok(v) => Ok(v@),
        Err(e) => Err(e@),
    }
}

/// Turns an operation into the context that the templates of one target
/// language are rendered with.
pub trait EndpointContextBuilder {
    /// The context of an operation of the document `doc`, or the reason why
    /// there is none.
    spec fn context_of(&self, doc: Json, op: OperationView) -> Result<Json, ErrorView>;

    /// Builds the context of an operation of the document `spec`.
    fn build(&self, spec: &OpenApiContext, op: &OpenApiOperation) -> (r: Result<JsonValue, Error>)
        ensures
            build_outcome(r) == self.context_of(spec@, op@),
    ;
}

/// Whether endpoint contexts can be built for a kind of template.
pub open spec fn has_builder(template: TemplateKind) -> bool {
    template == TemplateKind::RustAxum
}

/// The name under which a context is sorted: its `endpoint`, or the empty
/// text where it has none.
pub open spec fn endpoint_key(context: Json) -> Seq<char> {
    match context.get_str("endpoint"@) {
        Some(name) => name,
        None => Seq::empty(),
    }
}

/// The contexts stand in ascending order of their endpoint names.
pub open spec fn sorted_by_endpoint(contexts: Seq<Json>) -> bool {
    forall|i: int, j: int|
        0 <= i < j < contexts.len() ==> text_le(
            endpoint_key(#[trigger] contexts[i]),
            endpoint_key(#[trigger] contexts[j]),
        )
}

/// The contexts of the operations in their order, or the error of the first
/// operation that has none.
pub open spec fn built_contexts(doc: Json, ops: Seq<OperationView>) -> Result<
    Seq<Json>,
    ErrorView,
>
    decreases ops.len(),
{
    if ops.len() == 0 {
        Ok(Seq::empty())
    } else {
        match built_contexts(doc, ops.drop_last()) {
            Err(e) => Err(e),
            Ok(head) => match rust_endpoint_of(doc, ops.last()) {
                Ok(c) => Ok(head.push(rust_endpoint_to_json(c))),
                Err(e) => Err(e),
            },
        }
    }
}

/// The entry point to the builders.
pub struct EndpointContext;

fn endpoint_key_chars(context: &JsonValue) -> (r: Vec<char>)
    ensures
        r@ == endpoint_key(context@),
{
    match context.get_str("endpoint") {
        Some(name) => to_chars(name),
        None => Vec::new(),
    }
}

/// Where a context with the given key goes into a sorted list: behind every
/// context that does not come after it.
pub open spec fn insertion_point(sorted: Seq<Json>, key: Seq<char>) -> int
    decreases sorted.len(),
{
    if sorted.len() == 0 {
        0
    } else if !text_le(endpoint_key(sorted[0]), key) {
        0
    } else {
        1 + insertion_point(sorted.skip(1), key)
    }
}

/// The sorted list `sorted` with `context` put in at its place.
pub open spec fn insert_by_endpoint(sorted: Seq<Json>, context: Json) -> Seq<Json> {
    sorted.insert(insertion_point(sorted, endpoint_key(context)), context)
}

/// The contexts in ascending order of their endpoint names; contexts of the
/// same name keep their order.
pub open spec fn sorted_contexts(contexts: Seq<Json>) -> Seq<Json>
    decreases contexts.len(),
{
    if contexts.len() == 0 {
        Seq::empty()
    } else {
        insert_by_endpoint(sorted_contexts(contexts.drop_last()), contexts.last())
    }
}

proof fn lemma_insertion_point(sorted: Seq<Json>, key: Seq<char>)
    ensures
        0 <= insertion_point(sorted, key) <= sorted.len(),
        forall|k: int|
            0 <= k < insertion_point(sorted, key) ==> text_le(
                endpoint_key(#[trigger] sorted[k]),
                key,
            ),
        insertion_point(sorted, key) < sorted.len() ==> !text_le(
            endpoint_key(sorted[insertion_point(sorted, key)]),
            key,
        ),
    decreases sorted.len(),
{
    if sorted.len() > 0 && text_le(endpoint_key(sorted[0]), key) {
        let rest = sorted.skip(1);
        lemma_insertion_point(rest, key);
        let p = insertion_point(rest, key);
        assert forall|k: int| 0 <= k < p + 1 implies text_le(
            endpoint_key(#[trigger] sorted[k]),
            key,
        ) by {
            if k > 0 {
                assert(sorted[k] == rest[k - 1]);
            }
        }
        if p < rest.len() {
            assert(sorted[p + 1] == rest[p]);
        }
    }
}

proof fn lemma_insert_keeps_sorted(sorted: Seq<Json>, context: Json)
    requires
        sorted_by_endpoint(sorted),
    ensures
        sorted_by_endpoint(insert_by_endpoint(sorted, context)),
        insert_by_endpoint(sorted, context).to_multiset() == sorted.to_multiset().insert(context),
{
    let key = endpoint_key(context);
    let pos = insertion_point(sorted, key);
    lemma_insertion_point(sorted, key);
    let after = insert_by_endpoint(sorted, context);
    vstd::seq_lib::to_multiset_insert(sorted, pos, context);
    assert forall|i: int, j: int| 0 <= i < j < after.len() implies text_le(
        endpoint_key(#[trigger] after[i]),
        endpoint_key(#[trigger] after[j]),
    ) by {
        if j < pos {
            assert(after[i] == sorted[i] && after[j] == sorted[j]);
        } else if j == pos {
            assert(after[i] == sorted[i]);
        } else if i == pos {
            assert(after[j] == sorted[j - 1]);
            lemma_text_le_total(endpoint_key(sorted[pos]), key);
            if j - 1 > pos {
                lemma_text_le_transitive(key, endpoint_key(sorted[pos]), endpoint_key(sorted[j - 1]));
            }
        } else if i < pos {
            assert(after[i] == sorted[i] && after[j] == sorted[j - 1]);
        } else {
            assert(after[i] == sorted[i - 1] && after[j] == sorted[j - 1]);
        }
    }
}

/// The sorted contexts stand in ascending order of their endpoint names and
/// are the given contexts, each as often as it was given.
pub proof fn lemma_sorted_contexts(contexts: Seq<Json>)
    ensures
        sorted_by_endpoint(sorted_contexts(contexts)),
        sorted_contexts(contexts).to_multiset() == contexts.to_multiset(),
        sorted_contexts(contexts).len() == contexts.len(),
    decreases contexts.len(),
{
    broadcast use vstd::seq_lib::group_to_multiset_ensures;

    if contexts.len() > 0 {
        let head = contexts.drop_last();
        lemma_sorted_contexts(head);
        lemma_insert_keeps_sorted(sorted_contexts(head), contexts.last());
        lemma_insertion_point(sorted_contexts(head), endpoint_key(contexts.last()));
        assert(contexts =~= head.push(contexts.last()));
        vstd::seq_lib::to_multiset_build(head, contexts.last());
    }
}

/// Whether the context at `pos` does not come after the key.
fn stays_before(sorted: &Vec<JsonValue>, pos: usize, key: &Vec<char>) -> (r: bool)
    requires
        pos < sorted.len(),
    ensures
        r == text_le(endpoint_key(items_view(sorted@)[pos as int]), key@),
{
    let other = endpoint_key_chars(&sorted[pos]);
    chars_le(&other, key)
}

/// Puts `context` into the sorted list `sorted`, behind every context that
/// does not come after it.
fn insert_sorted(sorted: &mut Vec<JsonValue>, context: JsonValue)
    ensures
        items_view(final(sorted)@) == insert_by_endpoint(items_view(old(sorted)@), context@),
{
    let key = endpoint_key_chars(&context);
    let ghost before = items_view(sorted@);
    let mut pos: usize = 0;
    assert(before.skip(0) =~= before);
    while pos < sorted.len() && stays_before(sorted, pos, &key)
        invariant
            pos <= sorted.len(),
            items_view(sorted@) == before,
            key@ == endpoint_key(context@),
            insertion_point(before, key@) == pos + insertion_point(before.skip(pos as int), key@),
        decreases sorted.len() - pos,
    {
        proof {
            assert(before.skip(pos as int)[0] == before[pos as int]);
            assert(before.skip(pos as int).skip(1) =~= before.skip(pos as int + 1));
        }
        pos += 1;
    }
    proof {
        if pos < sorted.len() {
            assert(before.skip(pos as int)[0] == before[pos as int]);
        }
    }
    sorted.insert(pos, context);
    assert(items_view(sorted@) =~= before.insert(pos as int, context@));
}

impl EndpointContext {
    /// The builder for a kind of template. Only the Rust builder exists;
    /// asking for another is a mistake of the caller.
    pub fn get_builder(template: TemplateKind) -> (r: RustEndpointContextBuilder)
        requires
            has_builder(template),
        ensures
            r == RustEndpointContextBuilder,
    {
        RustEndpointContextBuilder
    }

    /// Whether endpoint contexts can be built for a kind of template.
    pub fn supports(template: TemplateKind) -> (r: bool)
        ensures
            r == has_builder(template),
    {
        match template {
            TemplateKind::RustAxum => true,
            _ => false,
        }
    }

    /// The contexts of the operations of the document `spec`, in ascending
    /// order of their endpoint names.
    ///
    /// Contexts of the same name keep the order of their operations. The
    /// first operation without a context fails the whole call with its
    /// error.
    pub fn transform_endpoints(
        template: TemplateKind,
        spec: &OpenApiContext,
        operations: &Vec<OpenApiOperation>,
    ) -> (r: Result<Vec<JsonValue>, Error>)
        requires
            has_builder(template),
        ensures
            match r {
                Ok(contexts) => {
                    &&& built_contexts(spec@, operations_view(operations@)) is Ok
                    &&& items_view(contexts@) == sorted_contexts(
                        built_contexts(spec@, operations_view(operations@))->Ok_0,
                    )
                },
                Err(e) => built_contexts(spec@, operations_view(operations@)) == Err::<
                    Seq<Json>,
                    ErrorView,
                >(e@),
            },
    {
        let builder = Self::get_builder(template);
        let ghost all = operations_view(operations@);
        let mut sorted: Vec<JsonValue> = Vec::new();
        let mut i: usize = 0;
        assert(items_view(sorted@) =~= Seq::<Json>::empty());
        while i < operations.len()
            invariant
                i <= operations.len(),
                all == operations_view(operations@),
                built_contexts(spec@, all.take(i as int)) is Ok,
                items_view(sorted@) == sorted_contexts(
                    built_contexts(spec@, all.take(i as int))->Ok_0,
                ),
            decreases operations.len() - i,
        {
            proof {
                assert(all.take(i as int + 1).drop_last() =~= all.take(i as int));
                assert(all.take(i as int + 1).last() == operations@[i as int]@);
            }
            match builder.build(spec, &operations[i]) {
                Ok(context) => {
                    proof {
                        let head = built_contexts(spec@, all.take(i as int))->Ok_0;
                        assert(builder.context_of(spec@, all[i as int]) == Ok::<Json, ErrorView>(
                            context@,
                        ));
                        assert(built_contexts(spec@, all.take(i as int + 1)) == Ok::<
                            Seq<Json>,
                            ErrorView,
                        >(head.push(context@)));
                        assert(head.push(context@).drop_last() =~= head);
                    }
                    insert_sorted(&mut sorted, context);
                },
                Err(e) => {
                    proof {
                        lemma_built_contexts_fail(spec@, all, i as int + 1);
                    }
                    return Err(e);
                },
            }
            i += 1;
        }
        assert(all.take(operations@.len() as int) =~= all);
        Ok(sorted)
    }
}

/// Once the contexts of the first `k` operations fail, those of all fail in
/// the same way.
proof fn lemma_built_contexts_fail(doc: Json, ops: Seq<OperationView>, k: int)
    requires
        0 <= k <= ops.len(),
        built_contexts(doc, ops.take(k)) is Err,
    ensures
        built_contexts(doc, ops) == built_contexts(doc, ops.take(k)),
    decreases ops.len() - k,
{
    if k < ops.len() {
        assert(ops.take(k + 1).drop_last() =~= ops.take(k));
        lemma_built_contexts_fail(doc, ops, k + 1);
    } else {
        assert(ops.take(k) =~= ops);
    }
}

} // verus!
