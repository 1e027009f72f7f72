//! What the evaluation crate says about the contexts that a test harness asks
//! for: whether a kind and a key make a context, whether contexts of several
//! kinds go together, and whether a context makes the round trip through JSON.

use crate::events::event::text_of;
use vstd::prelude::*;

verus! {

/// Whether `c` may stand in the kind of a context: an ASCII letter or digit,
/// or one of `-`, `.` and `_`.
pub open spec fn kind_char(c: char) -> bool {
    ('a' <= c <= 'z') || ('A' <= c <= 'Z') || ('0' <= c <= '9') || c == '-' || c == '.' || c == '_'
}

/// Whether `kind` can be the kind of a single context: not empty, not `kind`,
/// not `multi`, and made of the characters that a kind may hold.
pub open spec fn valid_kind(kind: Seq<char>) -> bool {
    &&& kind.len() > 0
    &&& kind != "kind"@
    &&& kind != "multi"@
    &&& forall|i: int| 0 <= i < kind.len() ==> kind_char(#[trigger] kind[i])
}

/// What the evaluation crate says is wrong with a single context of the given
/// kind and key, or `None` where it makes the context.
pub uninterp spec fn single_context_fault(kind: Seq<char>, key: Seq<char>) -> Option<Seq<char>>;

/// The builder of a context of several kinds.
#[verifier::external_type_specification]
#[verifier::external_body]
pub struct ExMultiContextBuilder(launchdarkly_server_sdk_evaluation::MultiContextBuilder);

/// The kinds of the contexts that a builder holds, in the order in which they
/// were added.
pub uninterp spec fn multi_kinds(
    builder: launchdarkly_server_sdk_evaluation::MultiContextBuilder,
) -> Seq<Seq<char>>;

/// What the evaluation crate says is wrong with a context made of contexts of
/// the given kinds, or `None` where it makes the context.
pub uninterp spec fn multi_context_fault(kinds: Seq<Seq<char>>) -> Option<Seq<char>>;

/// Whether the evaluation crate reads a context from the JSON text `input`
/// and writes it out again.
pub uninterp spec fn context_converts(input: Seq<char>) -> bool;

/// Calls `ContextBuilder::build` on a builder made by `ContextBuilder::new`
/// with `key` and given `kind` by `ContextBuilder::kind`. Returns the error of
/// the build, and `None` where a context was built. The build fails exactly
/// when the kind is not valid or the key is empty; it reads nothing but the
/// kind and the key, so its words are named after them.
#[verifier::external_body]
pub(crate) fn check_single_context(kind: &str, key: &str) -> (fault: Option<String>)
    ensures
        text_of(fault) == single_context_fault(kind@, key@),
        fault.is_none() == (valid_kind(kind@) && key@.len() > 0),
{
    launchdarkly_server_sdk_evaluation::ContextBuilder::new(key).kind(kind).build().err()
}

/// Calls `MultiContextBuilder::new`, which makes a builder that holds no
/// context.
#[verifier::external_body]
pub(crate) fn multi_builder_new() -> (builder:
    launchdarkly_server_sdk_evaluation::MultiContextBuilder)
    ensures
        multi_kinds(builder) == Seq::<Seq<char>>::empty(),
{
    launchdarkly_server_sdk_evaluation::MultiContextBuilder::new()
}

/// Calls `MultiContextBuilder::add_context` with the single context of the
/// given kind and key, which the builder then holds behind those it held.
#[verifier::external_body]
pub(crate) fn multi_builder_add(
    builder: &mut launchdarkly_server_sdk_evaluation::MultiContextBuilder,
    kind: &str,
    key: &str,
)
    requires
        single_context_fault(kind@, key@) is None,
    ensures
        multi_kinds(*final(builder)) == multi_kinds(*old(builder)).push(kind@),
{
    if let Ok(context) = launchdarkly_server_sdk_evaluation::ContextBuilder::new(key).kind(
        kind,
    ).build() {
        builder.add_context(context);
    }
}

/// Calls `MultiContextBuilder::build`. Returns the error of the build, and
/// `None` where a context was built. The build fails exactly when the builder
/// holds no context or two contexts of one kind.
#[verifier::external_body]
pub(crate) fn check_multi_context(
    builder: &launchdarkly_server_sdk_evaluation::MultiContextBuilder,
) -> (fault: Option<String>)
    ensures
        text_of(fault) == multi_context_fault(multi_kinds(*builder)),
        fault.is_none() == (multi_kinds(*builder).len() > 0 && multi_kinds(
            *builder,
        ).no_duplicates()),
{
    builder.build().err()
}

/// Calls `serde_json::from_str` to read a context of the evaluation crate
/// from `input`, and `serde_json::to_string` to write that context out again.
/// Returns the JSON written, or the words of the error of whichever call
/// failed. Whether the calls succeed is settled by `input`. The text that
/// comes back is not: the attributes of a context are written in the order of
/// a hash map, which differs from run to run, so nothing is said about it.
#[verifier::external_body]
pub(crate) fn convert_context(input: &str) -> (converted: Result<String, String>)
    ensures
        converted.is_ok() == context_converts(input@),
{
    serde_json::from_str::<launchdarkly_server_sdk_evaluation::Context>(input)
        .map_err(|error| error.to_string())
        .and_then(|context| serde_json::to_string(&context).map_err(|error| error.to_string()))
}

} // verus!
