//! Cross-field consistency: the one place state crosses fields. A first pass
//! folds over all fields to learn, per direction, whether any field maps it
//! through a function; a second pass then requires every function-mapped
//! field to supply that direction, since the conversion method for a
//! direction can only be emitted when every field contributes to it.

use vstd::prelude::*;
use crate::diag::{DiagKind, Diagnostic};
use crate::schema::{Field, MapFn};

verus! {

/// Whether a function mapping supplies a closure, plain or fallible, for the
/// given direction.
pub open spec fn has_direction(m: MapFn, is_view: bool) -> bool {
    if is_view {
        m.view is Some || m.try_view is Some
    } else {
        m.bake is Some || m.try_bake is Some
    }
}

/// Whether any field of the list maps the given direction through a function.
pub open spec fn any_direction_fn(fs: Seq<Field>, is_view: bool) -> bool
    decreases fs.len(),
{
    if fs.len() == 0 {
        false
    } else {
        any_direction_fn(fs.drop_last(), is_view) || (match fs.last().map_fn {
            Some(sm) => has_direction(sm.map_fn, is_view),
            None => false,
        })
    }
}

/// The missing-mapping diagnostics of one field, given which directions are
/// function-mapped somewhere in the struct. Direct-mapped fields are exempt:
/// a direct mapping supplies both directions by itself.
pub open spec fn missing_field_diags(f: Field, has_view: bool, has_bake: bool) -> Seq<Diagnostic> {
    if f.map is Some {
        Seq::empty()
    } else {
        match f.map_fn {
            Some(sm) => (if has_view && !has_direction(sm.map_fn, true) {
                seq![Diagnostic { kind: DiagKind::MissingViewMapping, span: Some(sm.span) }]
            } else {
                Seq::empty()
            }) + (if has_bake && !has_direction(sm.map_fn, false) {
                seq![Diagnostic { kind: DiagKind::MissingBakeMapping, span: Some(sm.span) }]
            } else {
                Seq::empty()
            }),
            None => Seq::empty(),
        }
    }
}

/// The missing-mapping diagnostics of a field list under fixed per-direction
/// flags, in declaration order.
pub open spec fn missing_diags_from(fs: Seq<Field>, has_view: bool, has_bake: bool) -> Seq<
    Diagnostic,
>
    decreases fs.len(),
{
    if fs.len() == 0 {
        Seq::empty()
    } else {
        missing_diags_from(fs.drop_last(), has_view, has_bake) + missing_field_diags(
            fs.last(),
            has_view,
            has_bake,
        )
    }
}

/// All missing-mapping diagnostics of the (non-ignored) field list.
pub open spec fn missing_diags(fs: Seq<Field>) -> Seq<Diagnostic> {
    missing_diags_from(fs, any_direction_fn(fs, true), any_direction_fn(fs, false))
}

/// Whether the function mapping supplies a closure for the given direction.
fn mapfn_has_direction(m: &MapFn, is_view: bool) -> (r: bool)
    ensures
        r == has_direction(*m, is_view),
{
    if is_view {
        m.view.is_some() || m.try_view.is_some()
    } else {
        m.bake.is_some() || m.try_bake.is_some()
    }
}

/// First pass: per direction, whether any field maps it through a function.
pub fn direction_flags(fields: &Vec<Field>) -> (r: (bool, bool))
    ensures
        r.0 == any_direction_fn(fields@, true),
        r.1 == any_direction_fn(fields@, false),
{
    let mut has_view = false;
    let mut has_bake = false;
    let mut i: usize = 0;
    while i < fields.len()
        invariant
            0 <= i <= fields@.len(),
            has_view == any_direction_fn(fields@.take(i as int), true),
            has_bake == any_direction_fn(fields@.take(i as int), false),
        decreases fields@.len() - i,
    {
        proof {
            assert(fields@.take(i as int + 1).drop_last() =~= fields@.take(i as int));
            assert(fields@.take(i as int + 1).last() == fields@[i as int]);
        }
        match &fields[i].map_fn {
            Some(sm) => {
                has_view = has_view || mapfn_has_direction(&sm.map_fn, true);
                has_bake = has_bake || mapfn_has_direction(&sm.map_fn, false);
            },
            None => (),
        }
        i = i + 1;
    }
    proof {
        assert(fields@.take(i as int) =~= fields@);
    }
    (has_view, has_bake)
}

/// Second pass: every function-mapped field must supply each direction that
/// is function-mapped anywhere; one diagnostic per missing side.
pub fn missing_mappings(fields: &Vec<Field>) -> (r: Vec<Diagnostic>)
    ensures
        r@ == missing_diags(fields@),
{
    let (has_view, has_bake) = direction_flags(fields);
    let mut ds: Vec<Diagnostic> = Vec::new();
    let mut i: usize = 0;
    while i < fields.len()
        invariant
            0 <= i <= fields@.len(),
            has_view == any_direction_fn(fields@, true),
            has_bake == any_direction_fn(fields@, false),
            ds@ == missing_diags_from(fields@.take(i as int), has_view, has_bake),
        decreases fields@.len() - i,
    {
        proof {
            assert(fields@.take(i as int + 1).drop_last() =~= fields@.take(i as int));
            assert(fields@.take(i as int + 1).last() == fields@[i as int]);
        }
        let f = &fields[i];
        if f.map.is_none() {
            match &f.map_fn {
                Some(sm) => {
                    if has_view && !mapfn_has_direction(&sm.map_fn, true) {
                        ds.push(
                            Diagnostic { kind: DiagKind::MissingViewMapping, span: Some(sm.span) },
                        );
                    }
                    if has_bake && !mapfn_has_direction(&sm.map_fn, false) {
                        ds.push(
                            Diagnostic { kind: DiagKind::MissingBakeMapping, span: Some(sm.span) },
                        );
                    }
                },
                None => (),
            }
        }
        i = i + 1;
    }
    proof {
        assert(fields@.take(i as int) =~= fields@);
    }
    ds
}

} // verus!
