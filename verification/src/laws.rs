//! The laws of the transformation, stated over the same spec functions the
//! executable pipeline is proved against: what holds of every schema, not of
//! one example.

use vstd::prelude::*;
use crate::adapt::{dir_errors, dir_fallible, dir_inits, resolved_name, value_for};
use crate::bake::{bake_diags, baked_field_def, kept_fields, method_emitted};
use crate::classify::{classify_diags, field_combo_diags, field_diags};
use crate::consistency::{
    any_direction_fn, has_direction, missing_diags, missing_diags_from, missing_field_diags,
};
use crate::diag::{DiagKind, Diagnostic};
use crate::emit::FieldInit;
use crate::eval::value_fallible;
use crate::schema::{Field, SpannedString, Struct};

verus! {

/// The same field with another rename directive.
pub open spec fn with_name(f: Field, n: Option<SpannedString>) -> Field {
    Field {
        ident: f.ident,
        vis: f.vis,
        ty: f.ty,
        map: f.map,
        map_fn: f.map_fn,
        ignore: f.ignore,
        new_type: f.new_type,
        name: n,
    }
}

/// The same field with another type override directive.
pub open spec fn with_new_type(f: Field, t: Option<SpannedString>) -> Field {
    Field {
        ident: f.ident,
        vis: f.vis,
        ty: f.ty,
        map: f.map,
        map_fn: f.map_fn,
        ignore: f.ignore,
        new_type: t,
        name: f.name,
    }
}

/// When every field contributes a value to a direction, the direction has no
/// synthesis errors, and its initializers are, in order, each field's
/// contributed value under its resolved output name.
proof fn lemma_dir_inits_total(fs: Seq<Field>, is_view: bool)
    requires
        forall|i: int|
            0 <= i < fs.len() ==> value_for(#[trigger] fs[i], is_view) matches Some(Ok(_)),
    ensures
        dir_inits(fs, is_view).len() == fs.len(),
        forall|i: int|
            0 <= i < fs.len() ==> dir_inits(fs, is_view)[i] == (FieldInit {
                name: resolved_name(fs[i]),
                value: value_for(fs[i], is_view)->Some_0->Ok_0,
            }),
        dir_errors(fs, is_view) == Seq::<Diagnostic>::empty(),
    decreases fs.len(),
{
    if fs.len() > 0 {
        lemma_dir_inits_total(fs.drop_last(), is_view);
        assert(dir_errors(fs, is_view) =~= Seq::<Diagnostic>::empty());
    }
}

/// When no contributing field's value is fallible, the direction is not
/// fallible.
proof fn lemma_dir_fallible_none(fs: Seq<Field>, is_view: bool)
    requires
        forall|i: int|
            0 <= i < fs.len() ==> !(value_for(#[trigger] fs[i], is_view) matches Some(Ok(v))
                && value_fallible(v)),
    ensures
        !dir_fallible(fs, is_view),
    decreases fs.len(),
{
    if fs.len() > 0 {
        lemma_dir_fallible_none(fs.drop_last(), is_view);
    }
}

/// When some contributing field's value is fallible, the direction is.
proof fn lemma_dir_fallible_some(fs: Seq<Field>, is_view: bool, k: int)
    requires
        0 <= k < fs.len(),
        value_for(fs[k], is_view) matches Some(Ok(v)) && value_fallible(v),
    ensures
        dir_fallible(fs, is_view),
    decreases fs.len(),
{
    if k < fs.len() - 1 {
        lemma_dir_fallible_some(fs.drop_last(), is_view, k);
    }
}

/// For a valid schema where every kept field supplies a plain (non-fallible)
/// mapping for a direction, that direction's conversion method is emitted, it
/// returns its value directly rather than wrapped in a result, and its output
/// fields are, in order, each field's contributed mapping expression under
/// its resolved output name.
pub proof fn lemma_plain_direction(s: Struct, is_view: bool)
    requires
        bake_diags(s).len() == 0,
        forall|i: int|
            0 <= i < kept_fields(s.fields@).len() ==> (value_for(
                #[trigger] kept_fields(s.fields@)[i],
                is_view,
            ) matches Some(Ok(v)) && !value_fallible(v)),
    ensures
        method_emitted(kept_fields(s.fields@), is_view),
        !dir_fallible(kept_fields(s.fields@), is_view),
        forall|i: int|
            0 <= i < kept_fields(s.fields@).len() ==> dir_inits(kept_fields(s.fields@), is_view)[i]
                == (FieldInit {
                name: resolved_name(kept_fields(s.fields@)[i]),
                value: value_for(kept_fields(s.fields@)[i], is_view)->Some_0->Ok_0,
            }),
{
    let kept = kept_fields(s.fields@);
    lemma_dir_inits_total(kept, is_view);
    lemma_dir_fallible_none(kept, is_view);
}

/// For a valid schema whose emitted method for a direction has some fallible
/// contributing field, the method is fallible — it returns a result type —
/// and an error type is configured for it to wrap.
pub proof fn lemma_fallible_direction(s: Struct, is_view: bool, k: int)
    requires
        bake_diags(s).len() == 0,
        method_emitted(kept_fields(s.fields@), is_view),
        0 <= k < kept_fields(s.fields@).len(),
        value_for(kept_fields(s.fields@)[k], is_view) matches Some(Ok(v)) && value_fallible(v),
    ensures
        dir_fallible(kept_fields(s.fields@), is_view),
        s.error_type is Some,
{
    let kept = kept_fields(s.fields@);
    lemma_dir_fallible_some(kept, is_view, k);
}

/// Ignoring a field removes it from everything the transformation emits: the
/// kept field list — which both companion types and both conversion methods
/// are built from — is exactly that of the schema without the field.
pub proof fn lemma_ignored_removed(fs: Seq<Field>, k: int)
    requires
        0 <= k < fs.len(),
        fs[k].ignore,
    ensures
        kept_fields(fs) == kept_fields(fs.remove(k)),
        forall|i: int| 0 <= i < kept_fields(fs).len() ==> !(#[trigger] kept_fields(fs)[i]).ignore,
    decreases fs.len(),
{
    lemma_kept_not_ignored(fs);
    if k == fs.len() - 1 {
        assert(fs.remove(k) =~= fs.drop_last());
    } else {
        assert(fs.remove(k).drop_last() =~= fs.drop_last().remove(k));
        assert(fs.remove(k).last() == fs.last());
        lemma_ignored_removed(fs.drop_last(), k);
    }
}

/// No kept field is ignored.
proof fn lemma_kept_not_ignored(fs: Seq<Field>)
    ensures
        forall|i: int| 0 <= i < kept_fields(fs).len() ==> !(#[trigger] kept_fields(fs)[i]).ignore,
    decreases fs.len(),
{
    if fs.len() > 0 {
        lemma_kept_not_ignored(fs.drop_last());
    }
}

/// A field's classification diagnostics all surface in the schema's.
proof fn lemma_classify_at_least(fs: Seq<Field>, k: int)
    requires
        0 <= k < fs.len(),
    ensures
        classify_diags(fs).len() >= field_diags(fs[k]).len(),
    decreases fs.len(),
{
    if k < fs.len() - 1 {
        lemma_classify_at_least(fs.drop_last(), k);
    }
}

/// An ignored field that also carries any other directive is rejected as a
/// combination error, not silently dropped: the invocation fails.
pub proof fn lemma_ignored_directives_rejected(s: Struct, k: int)
    requires
        0 <= k < s.fields@.len(),
        s.fields@[k].ignore,
        s.fields@[k].map is Some || s.fields@[k].map_fn is Some || s.fields@[k].new_type is Some
            || s.fields@[k].name is Some,
    ensures
        bake_diags(s).len() > 0,
{
    let f = s.fields@[k];
    assert(field_combo_diags(f).len() > 0);
    lemma_classify_at_least(s.fields@, k);
}

/// Renaming a field changes the output field's identifier — the same
/// definition serves the baked type and, behind a borrow, the view type —
/// without altering the source binding that produces the field's value.
pub proof fn lemma_rename(f: Field, n: SpannedString, is_view: bool)
    ensures
        baked_field_def(with_name(f, Some(n))).name == n.value,
        baked_field_def(with_name(f, Some(n))).ty == baked_field_def(f).ty,
        value_for(with_name(f, Some(n)), is_view) == value_for(f, is_view),
{
}

/// Overriding a field's type changes the output field's type — owned in the
/// baked type, borrowed in the view type — while the field's identifier and
/// the source binding that produces its value stay what they were.
pub proof fn lemma_type_override(f: Field, t: SpannedString, is_view: bool)
    ensures
        baked_field_def(with_new_type(f, Some(t))).ty == t.value,
        baked_field_def(with_new_type(f, Some(t))).name == baked_field_def(f).name,
        value_for(with_new_type(f, Some(t)), is_view) == value_for(f, is_view),
{
}

/// The kind of missing-mapping diagnostic for a direction.
pub open spec fn missing_kind(is_view: bool) -> DiagKind {
    if is_view {
        DiagKind::MissingViewMapping
    } else {
        DiagKind::MissingBakeMapping
    }
}

/// A field's missing-mapping diagnostics all surface in the list's.
proof fn lemma_missing_from_contains(
    fs: Seq<Field>,
    has_view: bool,
    has_bake: bool,
    k: int,
    d: Diagnostic,
)
    requires
        0 <= k < fs.len(),
        missing_field_diags(fs[k], has_view, has_bake).contains(d),
    ensures
        missing_diags_from(fs, has_view, has_bake).contains(d),
    decreases fs.len(),
{
    let prev = missing_diags_from(fs.drop_last(), has_view, has_bake);
    let here = missing_field_diags(fs.last(), has_view, has_bake);
    if k == fs.len() - 1 {
        let idx = choose|i: int| 0 <= i < here.len() && here[i] == d;
        assert((prev + here)[prev.len() + idx] == d);
    } else {
        lemma_missing_from_contains(fs.drop_last(), has_view, has_bake, k, d);
        let idx = choose|i: int| 0 <= i < prev.len() && prev[i] == d;
        assert((prev + here)[idx] == d);
    }
}

/// When some field maps a direction through a function, every function-mapped
/// field must supply that direction; one that does not fails the invocation
/// with a missing-mapping diagnostic pointing at that field's function
/// mapping.
pub proof fn lemma_missing_mapping(s: Struct, k: int, is_view: bool)
    requires
        classify_diags(s.fields@).len() == 0,
        0 <= k < kept_fields(s.fields@).len(),
        any_direction_fn(kept_fields(s.fields@), is_view),
        kept_fields(s.fields@)[k].map is None,
        kept_fields(s.fields@)[k].map_fn matches Some(sm) && !has_direction(sm.map_fn, is_view),
    ensures
        bake_diags(s).len() > 0,
        bake_diags(s).contains(
            Diagnostic {
                kind: missing_kind(is_view),
                span: Some(kept_fields(s.fields@)[k].map_fn->Some_0.span),
            },
        ),
{
    let kept = kept_fields(s.fields@);
    let f = kept[k];
    let hv = any_direction_fn(kept, true);
    let hb = any_direction_fn(kept, false);
    let d = Diagnostic { kind: missing_kind(is_view), span: Some(f.map_fn->Some_0.span) };
    let mfd = missing_field_diags(f, hv, hb);
    if is_view {
        assert(mfd[0] == d);
    } else {
        let first = if hv && !has_direction(f.map_fn->Some_0.map_fn, true) {
            1int
        } else {
            0int
        };
        assert(mfd[first] == d);
    }
    assert(mfd.contains(d));
    lemma_missing_from_contains(kept, hv, hb, k, d);
    assert(missing_diags(kept).contains(d));
    assert(missing_diags(kept).len() > 0);
}

} // verus!
