//! The dispatch laws, stated and proved against the resolution model:
//! delegation on unknown names, exact allowed-key sets in rejections,
//! verbatim table values in resolved declarations, and deterministic,
//! earliest-category-wins dispatch.

use vstd::prelude::*;
use crate::spacing::{
    spec_args, spec_attempt_margin, spec_attempt_padding, spec_attempt_space, spec_class_name,
    spec_emit, spec_margin_side, spec_padding_side, spec_resolve, Resolution, MAX_ARGS,
};
use crate::strutil::spec_join;
use crate::table::{tbl_keys, tbl_lookup, Tables};
use crate::warning::WarningKind;

verus! {

/// A token whose class name belongs to no category resolves to no-match —
/// not to an error — so the caller can delegate it to a sibling family.
/// The one family-wide exception is a token with more arguments than any
/// category allows: its overflow is reported before any category runs, so
/// such tokens are left out here.
pub proof fn lemma_unknown_class_is_no_match(token: Seq<char>, tables: Tables)
    requires
        spec_args(token).len() <= MAX_ARGS,
        spec_padding_side(spec_class_name(token)) is None,
        spec_margin_side(spec_class_name(token)) is None,
        spec_class_name(token) != "space"@,
    ensures
        spec_resolve(token, tables) == Resolution::NoMatch,
{
}

/// A token that structurally matches padding but carries an out-of-table
/// argument is rejected with `InvalidArg`, and the allowed set the warning
/// carries is exactly the padding table's key list.
pub proof fn lemma_padding_invalid_arg(token: Seq<char>, tables: Tables)
    requires
        spec_args(token).len() <= MAX_ARGS,
        spec_padding_side(spec_class_name(token)) is Some,
        tbl_lookup(tables.padding.entries(), spec_join(spec_args(token), "-"@)) is None,
    ensures
        spec_resolve(token, tables) == Resolution::Warned(
            WarningKind::InvalidArg(
                spec_join(spec_args(token), "-"@),
                tbl_keys(tables.padding.entries()),
            ),
        ),
{
}

/// As `lemma_padding_invalid_arg`, for margin: padding must have declined,
/// and the allowed set is exactly the margin table's key list.
pub proof fn lemma_margin_invalid_arg(token: Seq<char>, tables: Tables)
    requires
        spec_args(token).len() <= MAX_ARGS,
        spec_padding_side(spec_class_name(token)) is None,
        spec_margin_side(spec_class_name(token)) is Some,
        tbl_lookup(tables.margin.entries(), spec_join(spec_args(token), "-"@)) is None,
    ensures
        spec_resolve(token, tables) == Resolution::Warned(
            WarningKind::InvalidArg(
                spec_join(spec_args(token), "-"@),
                tbl_keys(tables.margin.entries()),
            ),
        ),
{
}

/// As `lemma_padding_invalid_arg`, for space-between: a recognized axis with
/// an out-of-table argument is blamed on space-between itself — never
/// reported as an unknown class — and the allowed set is exactly the
/// space-between table's key list.
pub proof fn lemma_space_invalid_arg(token: Seq<char>, tables: Tables)
    requires
        spec_args(token).len() == 2,
        spec_padding_side(spec_class_name(token)) is None,
        spec_margin_side(spec_class_name(token)) is None,
        spec_class_name(token) == "space"@,
        spec_args(token)[0] == "x"@ || spec_args(token)[0] == "y"@,
        spec_args(token)[1] != "reverse"@,
        tbl_lookup(tables.space_between.entries(), spec_args(token)[1]) is None,
    ensures
        spec_resolve(token, tables) == Resolution::Warned(
            WarningKind::InvalidArg(
                spec_args(token)[1],
                tbl_keys(tables.space_between.entries()),
            ),
        ),
{
    assert(spec_args(token).drop_first() =~= seq![spec_args(token)[1]]);
}

/// For a valid (padding prefix, table key) pair, the resolved declaration's
/// value is the table's value for that key, verbatim.
pub proof fn lemma_padding_valid_key(token: Seq<char>, tables: Tables, v: Seq<char>)
    requires
        1 <= spec_args(token).len() <= MAX_ARGS,
        spec_padding_side(spec_class_name(token)) is Some,
        tbl_lookup(tables.padding.entries(), spec_join(spec_args(token), "-"@)) == Some(v),
    ensures
        spec_resolve(token, tables) matches Resolution::Matched(sp) && spec_emit(sp).value == v,
{
}

/// As `lemma_padding_valid_key`, for margin.
pub proof fn lemma_margin_valid_key(token: Seq<char>, tables: Tables, v: Seq<char>)
    requires
        1 <= spec_args(token).len() <= MAX_ARGS,
        spec_padding_side(spec_class_name(token)) is None,
        spec_margin_side(spec_class_name(token)) is Some,
        tbl_lookup(tables.margin.entries(), spec_join(spec_args(token), "-"@)) == Some(v),
    ensures
        spec_resolve(token, tables) matches Resolution::Matched(sp) && spec_emit(sp).value == v,
{
}

/// As `lemma_padding_valid_key`, for space-between on a recognized axis.
pub proof fn lemma_space_valid_key(token: Seq<char>, tables: Tables, v: Seq<char>)
    requires
        spec_args(token).len() == 2,
        spec_padding_side(spec_class_name(token)) is None,
        spec_margin_side(spec_class_name(token)) is None,
        spec_class_name(token) == "space"@,
        spec_args(token)[0] == "x"@ || spec_args(token)[0] == "y"@,
        spec_args(token)[1] != "reverse"@,
        tbl_lookup(tables.space_between.entries(), spec_args(token)[1]) == Some(v),
    ensures
        spec_resolve(token, tables) matches Resolution::Matched(sp) && spec_emit(sp).value == v,
{
    assert(spec_args(token).drop_first() =~= seq![spec_args(token)[1]]);
}

/// A warning out of the dispatcher is always `TooManyArgs`, `InvalidArg` or
/// `StateNotFound` — never `ClassNotFound`. Within the dispatcher, "no
/// category matched" is signalled by the absence of a resolution, and
/// `ClassNotFound` is produced only by the caller above it.
pub proof fn lemma_dispatcher_never_warns_class_not_found(token: Seq<char>, tables: Tables)
    ensures
        spec_resolve(token, tables) matches Resolution::Warned(k) ==> !(k matches
        WarningKind::ClassNotFound),
{
}

/// Dispatch is deterministic: the outcome is a function of the token and
/// the registry alone, so re-resolving the same token always yields the
/// same outcome.
pub proof fn lemma_resolution_deterministic(
    token: Seq<char>,
    tables: Tables,
    r1: Resolution,
    r2: Resolution,
)
    requires
        r1 == spec_resolve(token, tables),
        r2 == spec_resolve(token, tables),
    ensures
        r1 == r2,
{
}

/// Only the earliest-listed category that structurally matches ever claims
/// a token: a padding name makes the outcome padding's attempt alone,
/// whatever the later categories would have said of it.
pub proof fn lemma_padding_claims_first(token: Seq<char>, tables: Tables)
    requires
        spec_args(token).len() <= MAX_ARGS,
        spec_padding_side(spec_class_name(token)) is Some,
    ensures
        spec_resolve(token, tables) == spec_attempt_padding(
            spec_class_name(token),
            spec_args(token),
            tables.padding.entries(),
        ),
{
}

/// Margin claims exactly when padding has declined and the name is a margin
/// name; the outcome is then margin's attempt alone.
pub proof fn lemma_margin_claims_second(token: Seq<char>, tables: Tables)
    requires
        spec_args(token).len() <= MAX_ARGS,
        spec_padding_side(spec_class_name(token)) is None,
        spec_margin_side(spec_class_name(token)) is Some,
    ensures
        spec_resolve(token, tables) == spec_attempt_margin(
            spec_class_name(token),
            spec_args(token),
            tables.margin.entries(),
        ),
{
}

/// Space-between is consulted last: when the earlier categories decline and
/// the name is `space`, the outcome is space-between's attempt alone — in
/// particular a structural space-between match that fails is blamed on
/// space-between itself, never downgraded to an unknown class.
pub proof fn lemma_space_claims_last(token: Seq<char>, tables: Tables)
    requires
        spec_args(token).len() <= MAX_ARGS,
        spec_padding_side(spec_class_name(token)) is None,
        spec_margin_side(spec_class_name(token)) is None,
        spec_class_name(token) == "space"@,
    ensures
        spec_resolve(token, tables) == spec_attempt_space(
            spec_class_name(token),
            spec_args(token),
            tables.space_between.entries(),
        ),
{
}

} // verus!
