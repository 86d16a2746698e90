//! Closure adaptation and per-field value synthesis: for each field and each
//! direction, compute the value expression the conversion method evaluates —
//! a borrow of the direct mapping, the direct mapping itself, or a call of
//! the user's closure with its sole parameter rebound to a borrow of the
//! receiver.

use vstd::prelude::*;
use crate::diag::{DiagKind, Diagnostic};
use crate::emit::{FieldInit, FieldValue};
use crate::schema::{Expr, Field, MapFn, Pat, SpannedExpr};

verus! {

/// The raw text a direct mapping contributes. Only field-access expressions
/// survive classification, but the choice is total so that the synthesis
/// functions are too.
pub open spec fn direct_tokens(e: Expr) -> String {
    match e {
        Expr::FieldAccess { tokens } => tokens,
        Expr::Other { tokens } => tokens,
        Expr::Closure { body, .. } => body,
    }
}

/// The closure chosen for one direction: the plain slot when present, else
/// the fallible slot (marked as such), else nothing.
pub open spec fn chosen_mapping(m: MapFn, is_view: bool) -> Option<(SpannedExpr, bool)> {
    if is_view {
        match m.view {
            Some(se) => Some((se, false)),
            None => match m.try_view {
                Some(se) => Some((se, true)),
                None => None,
            },
        }
    } else {
        match m.bake {
            Some(se) => Some((se, false)),
            None => match m.try_bake {
                Some(se) => Some((se, true)),
                None => None,
            },
        }
    }
}

/// Rebinds a chosen closure's sole parameter to a borrow of the receiver, or
/// says why it cannot. A non-closure expression is already rejected at
/// classification time; if one reaches this point the same diagnostic is
/// propagated.
pub open spec fn rebound_value(se: SpannedExpr, fallible: bool) -> Result<FieldValue, Diagnostic> {
    match se.expr {
        Expr::Closure { params, body } => {
            if params@.len() == 0 {
                Err(Diagnostic { kind: DiagKind::ClosureNeedsParameter, span: Some(se.span) })
            } else if params@.len() > 1 {
                Err(Diagnostic { kind: DiagKind::ClosureExtraParameter, span: Some(se.span) })
            } else {
                match params@[0] {
                    Pat::Ident { name } => Ok(FieldValue::Call { param: name, body, fallible }),
                    Pat::Other { .. } => Err(
                        Diagnostic { kind: DiagKind::ClosureParamNotIdent, span: Some(se.span) },
                    ),
                }
            }
        },
        _ => Err(Diagnostic { kind: DiagKind::ExprNotClosure, span: Some(se.span) }),
    }
}

/// What one field contributes to one direction: nothing, a value expression,
/// or a diagnostic.
pub open spec fn value_for(f: Field, is_view: bool) -> Option<Result<FieldValue, Diagnostic>> {
    match f.map {
        Some(se) => Some(
            Ok(
                if is_view {
                    FieldValue::Borrowed { expr: direct_tokens(se.expr) }
                } else {
                    FieldValue::Owned { expr: direct_tokens(se.expr) }
                },
            ),
        ),
        None => match f.map_fn {
            Some(sm) => match chosen_mapping(sm.map_fn, is_view) {
                Some((se, fallible)) => Some(rebound_value(se, fallible)),
                None => None,
            },
            None => None,
        },
    }
}

/// The output field's identifier: the rename when one is given, else the
/// source field's own identifier.
pub open spec fn resolved_name(f: Field) -> String {
    match f.name {
        Some(sn) => sn.value,
        None => match f.ident {
            Some(id) => id,
            None => vstd::pervasive::arbitrary(),
        },
    }
}

/// The output field's type in the owned companion: the override when one is
/// given, else the source field's declared type.
pub open spec fn resolved_ty(f: Field) -> String {
    match f.new_type {
        Some(st) => st.value,
        None => f.ty,
    }
}

/// The synthesis diagnostics of one direction, in field order.
pub open spec fn dir_errors(fs: Seq<Field>, is_view: bool) -> Seq<Diagnostic>
    decreases fs.len(),
{
    if fs.len() == 0 {
        Seq::empty()
    } else {
        dir_errors(fs.drop_last(), is_view) + (match value_for(fs.last(), is_view) {
            Some(Err(d)) => seq![d],
            _ => Seq::empty(),
        })
    }
}

/// The field initializers one direction's method evaluates, in field order.
pub open spec fn dir_inits(fs: Seq<Field>, is_view: bool) -> Seq<FieldInit>
    decreases fs.len(),
{
    if fs.len() == 0 {
        Seq::empty()
    } else {
        dir_inits(fs.drop_last(), is_view) + (match value_for(fs.last(), is_view) {
            Some(Ok(v)) => seq![FieldInit { name: resolved_name(fs.last()), value: v }],
            _ => Seq::empty(),
        })
    }
}

/// Whether any contributing field uses the fallible closure for the
/// direction; if so the direction's method returns a result type.
pub open spec fn dir_fallible(fs: Seq<Field>, is_view: bool) -> bool
    decreases fs.len(),
{
    if fs.len() == 0 {
        false
    } else {
        dir_fallible(fs.drop_last(), is_view) || (match value_for(fs.last(), is_view) {
            Some(Ok(FieldValue::Call { fallible, .. })) => fallible,
            _ => false,
        })
    }
}

/// Computes what one field contributes to one direction.
pub fn field_value(f: &Field, is_view: bool) -> (r: Option<Result<FieldValue, Diagnostic>>)
    ensures
        r == value_for(*f, is_view),
{
    match &f.map {
        Some(se) => {
            let tokens = match &se.expr {
                Expr::FieldAccess { tokens } => tokens.clone(),
                Expr::Other { tokens } => tokens.clone(),
                Expr::Closure { body, .. } => body.clone(),
            };
            if is_view {
                Some(Ok(FieldValue::Borrowed { expr: tokens }))
            } else {
                Some(Ok(FieldValue::Owned { expr: tokens }))
            }
        },
        None => match &f.map_fn {
            Some(sm) => {
                let chosen: Option<(&SpannedExpr, bool)> = if is_view {
                    match &sm.map_fn.view {
                        Some(se) => Some((se, false)),
                        None => match &sm.map_fn.try_view {
                            Some(se) => Some((se, true)),
                            None => None,
                        },
                    }
                } else {
                    match &sm.map_fn.bake {
                        Some(se) => Some((se, false)),
                        None => match &sm.map_fn.try_bake {
                            Some(se) => Some((se, true)),
                            None => None,
                        },
                    }
                };
                match chosen {
                    Some((se, fallible)) => Some(rebind(se, fallible)),
                    None => None,
                }
            },
            None => None,
        },
    }
}

/// Rebinds the chosen closure's sole parameter to a borrow of the receiver.
fn rebind(se: &SpannedExpr, fallible: bool) -> (r: Result<FieldValue, Diagnostic>)
    ensures
        r == rebound_value(*se, fallible),
{
    match &se.expr {
        Expr::Closure { params, body } => {
            if params.len() == 0 {
                Err(Diagnostic { kind: DiagKind::ClosureNeedsParameter, span: Some(se.span) })
            } else if params.len() > 1 {
                Err(Diagnostic { kind: DiagKind::ClosureExtraParameter, span: Some(se.span) })
            } else {
                match &params[0] {
                    Pat::Ident { name } => Ok(
                        FieldValue::Call { param: name.clone(), body: body.clone(), fallible },
                    ),
                    Pat::Other { .. } => Err(
                        Diagnostic { kind: DiagKind::ClosureParamNotIdent, span: Some(se.span) },
                    ),
                }
            }
        },
        _ => Err(Diagnostic { kind: DiagKind::ExprNotClosure, span: Some(se.span) }),
    }
}

/// The output field's identifier.
pub fn resolve_name(f: &Field) -> (r: String)
    requires
        f.name is Some || f.ident is Some,
    ensures
        r == resolved_name(*f),
{
    match &f.name {
        Some(sn) => sn.value.clone(),
        None => match &f.ident {
            Some(id) => id.clone(),
            None => vstd::pervasive::unreached(),
        },
    }
}

/// The output field's type in the owned companion.
pub fn resolve_ty(f: &Field) -> (r: String)
    ensures
        r == resolved_ty(*f),
{
    match &f.new_type {
        Some(st) => st.value.clone(),
        None => f.ty.clone(),
    }
}

/// Synthesizes one direction: every field's initializer, in declaration
/// order, and whether any of them is fallible — or every synthesis
/// diagnostic, when there are any.
pub fn synth_direction(fields: &Vec<Field>, is_view: bool) -> (r: Result<
    (Vec<FieldInit>, bool),
    Vec<Diagnostic>,
>)
    requires
        forall|i: int|
            0 <= i < fields@.len() ==> (#[trigger] fields@[i]).name is Some
                || fields@[i].ident is Some,
    ensures
        dir_errors(fields@, is_view).len() == 0 ==> (r matches Ok(p) && p.0@ == dir_inits(
            fields@,
            is_view,
        ) && p.1 == dir_fallible(fields@, is_view)),
        dir_errors(fields@, is_view).len() != 0 ==> (r matches Err(ds) && ds@ == dir_errors(
            fields@,
            is_view,
        )),
{
    let mut inits: Vec<FieldInit> = Vec::new();
    let mut errs: Vec<Diagnostic> = Vec::new();
    let mut fallible = false;
    let mut i: usize = 0;
    while i < fields.len()
        invariant
            0 <= i <= fields@.len(),
            forall|j: int|
                0 <= j < fields@.len() ==> (#[trigger] fields@[j]).name is Some
                    || fields@[j].ident is Some,
            inits@ == dir_inits(fields@.take(i as int), is_view),
            errs@ == dir_errors(fields@.take(i as int), is_view),
            fallible == dir_fallible(fields@.take(i as int), is_view),
        decreases fields@.len() - i,
    {
        proof {
            assert(fields@.take(i as int + 1).drop_last() =~= fields@.take(i as int));
            assert(fields@.take(i as int + 1).last() == fields@[i as int]);
        }
        let f = &fields[i];
        match field_value(f, is_view) {
            Some(res) => match res {
                Ok(v) => {
                    let v_fallible = match &v {
                        FieldValue::Call { fallible: fl, .. } => *fl,
                        _ => false,
                    };
                    fallible = fallible || v_fallible;
                    let name = resolve_name(f);
                    inits.push(FieldInit { name, value: v });
                },
                Err(d) => errs.push(d),
            },
            None => (),
        }
        i = i + 1;
    }
    proof {
        assert(fields@.take(i as int) =~= fields@);
    }
    if errs.len() == 0 {
        Ok((inits, fallible))
    } else {
        Err(errs)
    }
}

} // verus!
