//! Field classification: per-field shape and combination checks. Every
//! violation is its own diagnostic, and the diagnostics of all fields are
//! collected before anything is reported, so one invocation surfaces every
//! problem at once.

use vstd::prelude::*;
use crate::diag::{DiagKind, Diagnostic};
use crate::schema::{Expr, Field, MapFn, SpannedExpr, SpannedMapFn};

verus! {

/// Diagnostics for a direct-mapping slot: the expression, when present, must
/// be a field access.
pub open spec fn map_expr_diags(o: Option<SpannedExpr>) -> Seq<Diagnostic> {
    match o {
        Some(se) => if !(se.expr is FieldAccess) {
            seq![Diagnostic { kind: DiagKind::ExprNotField, span: Some(se.span) }]
        } else {
            Seq::empty()
        },
        None => Seq::empty(),
    }
}

/// Diagnostics for one function-mapping slot: the expression, when present,
/// must be a closure literal.
pub open spec fn closure_expr_diags(o: Option<SpannedExpr>) -> Seq<Diagnostic> {
    match o {
        Some(se) => if !(se.expr is Closure) {
            seq![Diagnostic { kind: DiagKind::ExprNotClosure, span: Some(se.span) }]
        } else {
            Seq::empty()
        },
        None => Seq::empty(),
    }
}

/// Shape diagnostics of a function mapping: each of its four slots checked in
/// turn.
pub open spec fn mapfn_shape_diags(m: MapFn) -> Seq<Diagnostic> {
    closure_expr_diags(m.view) + closure_expr_diags(m.bake) + closure_expr_diags(m.try_view)
        + closure_expr_diags(m.try_bake)
}

/// Combination diagnostics of a function mapping: within a direction the
/// plain and fallible slots are mutually exclusive.
pub open spec fn mapfn_combo_diags(m: MapFn) -> Seq<Diagnostic> {
    (match m.try_bake {
        Some(tb) => if m.bake is Some {
            seq![Diagnostic { kind: DiagKind::TryBakeWithBake, span: Some(tb.span) }]
        } else {
            Seq::empty()
        },
        None => Seq::empty(),
    }) + (match m.try_view {
        Some(tv) => if m.view is Some {
            seq![Diagnostic { kind: DiagKind::TryViewWithView, span: Some(tv.span) }]
        } else {
            Seq::empty()
        },
        None => Seq::empty(),
    })
}

/// Combination diagnostics of one field: an ignored field may carry no other
/// directive (one diagnostic per co-occurring directive), and a non-ignored
/// field carries exactly one of the two mapping kinds.
pub open spec fn field_combo_diags(f: Field) -> Seq<Diagnostic> {
    if f.ignore {
        (match f.map {
            Some(se) => seq![Diagnostic { kind: DiagKind::MapOnIgnored, span: Some(se.span) }],
            None => Seq::empty(),
        }) + (match f.map_fn {
            Some(sm) => seq![Diagnostic { kind: DiagKind::MapFnOnIgnored, span: Some(sm.span) }],
            None => Seq::empty(),
        }) + (match f.new_type {
            Some(st) => seq![Diagnostic { kind: DiagKind::TypeOnIgnored, span: Some(st.span) }],
            None => Seq::empty(),
        }) + (match f.name {
            Some(sn) => seq![Diagnostic { kind: DiagKind::NameOnIgnored, span: Some(sn.span) }],
            None => Seq::empty(),
        })
    } else if f.map is Some && f.map_fn is Some {
        match f.map_fn {
            Some(sm) => seq![Diagnostic { kind: DiagKind::MapFnWithMap, span: Some(sm.span) }],
            None => Seq::empty(),
        }
    } else if f.map is None && f.map_fn is None {
        seq![Diagnostic { kind: DiagKind::NoMapping, span: None }]
    } else {
        Seq::empty()
    }
}

/// All classification diagnostics of one field, in a fixed order: direct
/// mapping shape, function mapping shapes, function mapping combinations,
/// field combinations.
pub open spec fn field_diags(f: Field) -> Seq<Diagnostic> {
    map_expr_diags(f.map) + (match f.map_fn {
        Some(sm) => mapfn_shape_diags(sm.map_fn) + mapfn_combo_diags(sm.map_fn),
        None => Seq::empty(),
    }) + field_combo_diags(f)
}

/// The classification diagnostics of a whole field list, in declaration
/// order.
pub open spec fn classify_diags(fs: Seq<Field>) -> Seq<Diagnostic>
    decreases fs.len(),
{
    if fs.len() == 0 {
        Seq::empty()
    } else {
        classify_diags(fs.drop_last()) + field_diags(fs.last())
    }
}

impl Field {
    /// Checks that a direct-mapping expression is structurally a field
    /// access, handing the slot back unchanged when it is.
    pub fn is_path(value: Option<SpannedExpr>) -> (r: Result<Option<SpannedExpr>, Diagnostic>)
        ensures
            map_expr_diags(value).len() == 0 ==> r == Ok::<Option<SpannedExpr>, Diagnostic>(value),
            map_expr_diags(value).len() != 0 ==> (r matches Err(d) && map_expr_diags(value)
                == seq![d]),
    {
        let bad_span = match &value {
            Some(se) => match &se.expr {
                Expr::FieldAccess { .. } => None,
                _ => Some(se.span),
            },
            None => None,
        };
        match bad_span {
            Some(span) => Err(Diagnostic { kind: DiagKind::ExprNotField, span: Some(span) }),
            None => Ok(value),
        }
    }

    /// Runs every per-field check and hands the field back when all pass;
    /// otherwise returns every violation, one diagnostic each.
    #[verifier::rlimit(50)]
    pub fn valid_combination(self) -> (r: Result<Field, Vec<Diagnostic>>)
        ensures
            field_diags(self).len() == 0 ==> r == Ok::<Field, Vec<Diagnostic>>(self),
            field_diags(self).len() != 0 ==> (r matches Err(ds) && ds@ == field_diags(self)),
    {
        let map_span = match &self.map {
            Some(se) => Some(se.span),
            None => None,
        };
        let mapfn_span = match &self.map_fn {
            Some(sm) => Some(sm.span),
            None => None,
        };
        let newtype_span = match &self.new_type {
            Some(st) => Some(st.span),
            None => None,
        };
        let name_span = match &self.name {
            Some(sn) => Some(sn.span),
            None => None,
        };

        let Field { ident, vis, ty, map, map_fn, ignore, new_type, name } = self;

        let mut ds: Vec<Diagnostic> = Vec::new();

        let map = match Self::is_path(map) {
            Ok(v) => v,
            Err(d) => {
                ds.push(d);
                None
            },
        };
        proof {
            assert(ds@ =~= map_expr_diags(self.map));
        }

        let map_fn = match map_fn {
            Some(sm) => {
                let SpannedMapFn { map_fn: inner, span } = sm;
                match inner.valid_combination() {
                    Ok(m) => Some(SpannedMapFn { map_fn: m, span }),
                    Err(mut ds2) => {
                        ds.append(&mut ds2);
                        None
                    },
                }
            },
            None => None,
        };

        proof {
            assert(ds@ =~= map_expr_diags(self.map) + (match self.map_fn {
                Some(sm) => mapfn_shape_diags(sm.map_fn) + mapfn_combo_diags(sm.map_fn),
                None => Seq::<Diagnostic>::empty(),
            }));
        }
        let ghost pre_combo = ds@;

        // Combination checks go by what the caller supplied, not by what the
        // shape checks let through, so they still fire beside shape errors.
        if ignore {
            match map_span {
                Some(span) => ds.push(
                    Diagnostic { kind: DiagKind::MapOnIgnored, span: Some(span) },
                ),
                None => (),
            }
            match mapfn_span {
                Some(span) => ds.push(
                    Diagnostic { kind: DiagKind::MapFnOnIgnored, span: Some(span) },
                ),
                None => (),
            }
            match newtype_span {
                Some(span) => ds.push(
                    Diagnostic { kind: DiagKind::TypeOnIgnored, span: Some(span) },
                ),
                None => (),
            }
            match name_span {
                Some(span) => ds.push(
                    Diagnostic { kind: DiagKind::NameOnIgnored, span: Some(span) },
                ),
                None => (),
            }
        } else if map_span.is_some() && mapfn_span.is_some() {
            match mapfn_span {
                Some(span) => ds.push(
                    Diagnostic { kind: DiagKind::MapFnWithMap, span: Some(span) },
                ),
                None => (),
            }
        } else if map_span.is_none() && mapfn_span.is_none() {
            ds.push(Diagnostic { kind: DiagKind::NoMapping, span: None });
        }
        proof {
            assert(ds@ =~= pre_combo + field_combo_diags(self));
            assert(ds@ =~= field_diags(self));
        }

        if ds.len() == 0 {
            Ok(Field { ident, vis, ty, map, map_fn, ignore, new_type, name })
        } else {
            Err(ds)
        }
    }
}

impl MapFn {
    /// Checks that a function-mapping expression is structurally a closure
    /// literal, handing the slot back unchanged when it is.
    pub fn is_closure(value: Option<SpannedExpr>) -> (r: Result<Option<SpannedExpr>, Diagnostic>)
        ensures
            closure_expr_diags(value).len() == 0 ==> r == Ok::<Option<SpannedExpr>, Diagnostic>(
                value,
            ),
            closure_expr_diags(value).len() != 0 ==> (r matches Err(d) && closure_expr_diags(value)
                == seq![d]),
    {
        let bad_span = match &value {
            Some(se) => match &se.expr {
                Expr::Closure { .. } => None,
                _ => Some(se.span),
            },
            None => None,
        };
        match bad_span {
            Some(span) => Err(Diagnostic { kind: DiagKind::ExprNotClosure, span: Some(span) }),
            None => Ok(value),
        }
    }

    /// Runs the shape check on each slot and the per-direction exclusivity
    /// checks, handing the mapping back when all pass; otherwise returns
    /// every violation.
    pub fn valid_combination(self) -> (r: Result<MapFn, Vec<Diagnostic>>)
        ensures
            (mapfn_shape_diags(self) + mapfn_combo_diags(self)).len() == 0 ==> r == Ok::<
                MapFn,
                Vec<Diagnostic>,
            >(self),
            (mapfn_shape_diags(self) + mapfn_combo_diags(self)).len() != 0 ==> (r matches Err(ds)
                && ds@ == mapfn_shape_diags(self) + mapfn_combo_diags(self)),
    {
        let MapFn { view, bake, try_view, try_bake } = self;

        let bake_present = bake.is_some();
        let view_present = view.is_some();
        let try_bake_span = match &try_bake {
            Some(se) => Some(se.span),
            None => None,
        };
        let try_view_span = match &try_view {
            Some(se) => Some(se.span),
            None => None,
        };

        let mut ds: Vec<Diagnostic> = Vec::new();

        let view = match Self::is_closure(view) {
            Ok(v) => v,
            Err(d) => {
                ds.push(d);
                None
            },
        };
        proof {
            assert(ds@ =~= closure_expr_diags(self.view));
        }
        let bake = match Self::is_closure(bake) {
            Ok(v) => v,
            Err(d) => {
                ds.push(d);
                None
            },
        };
        proof {
            assert(ds@ =~= closure_expr_diags(self.view) + closure_expr_diags(self.bake));
        }
        let try_view = match Self::is_closure(try_view) {
            Ok(v) => v,
            Err(d) => {
                ds.push(d);
                None
            },
        };
        proof {
            assert(ds@ =~= closure_expr_diags(self.view) + closure_expr_diags(self.bake)
                + closure_expr_diags(self.try_view));
        }
        let try_bake = match Self::is_closure(try_bake) {
            Ok(v) => v,
            Err(d) => {
                ds.push(d);
                None
            },
        };
        proof {
            assert(ds@ =~= mapfn_shape_diags(self));
        }

        match try_bake_span {
            Some(span) => if bake_present {
                ds.push(Diagnostic { kind: DiagKind::TryBakeWithBake, span: Some(span) });
            },
            None => (),
        }
        match try_view_span {
            Some(span) => if view_present {
                ds.push(Diagnostic { kind: DiagKind::TryViewWithView, span: Some(span) });
            },
            None => (),
        }
        proof {
            assert(ds@ =~= mapfn_shape_diags(self) + mapfn_combo_diags(self));
        }

        if ds.len() == 0 {
            Ok(MapFn { view, bake, try_view, try_bake })
        } else {
            Err(ds)
        }
    }
}

/// Classifies every field, collecting the diagnostics of all of them; the
/// fields come back unchanged only when every one is valid.
pub fn classify_fields(fields: Vec<Field>) -> (r: Result<Vec<Field>, Vec<Diagnostic>>)
    ensures
        classify_diags(fields@).len() == 0 ==> (r matches Ok(v) && v@ == fields@),
        classify_diags(fields@).len() != 0 ==> (r matches Err(ds) && ds@ == classify_diags(
            fields@,
        )),
{
    let ghost orig = fields@;
    let mut rest = fields;
    let mut out: Vec<Field> = Vec::new();
    let mut ds: Vec<Diagnostic> = Vec::new();
    let ghost mut i: int = 0;

    while rest.len() > 0
        invariant
            0 <= i,
            i + rest@.len() == orig.len(),
            rest@ == orig.skip(i),
            ds@ == classify_diags(orig.take(i)),
            ds@.len() == 0 ==> out@ == orig.take(i),
        decreases rest@.len(),
    {
        let f = rest.remove(0);
        proof {
            assert(f == orig[i]);
            assert(rest@ =~= orig.skip(i + 1));
            assert(orig.take(i + 1).drop_last() =~= orig.take(i));
            assert(orig.take(i + 1).last() == orig[i]);
        }
        match f.valid_combination() {
            Ok(g) => out.push(g),
            Err(mut e) => ds.append(&mut e),
        }
        proof {
            i = i + 1;
        }
    }
    proof {
        assert(orig.take(i) =~= orig);
    }
    if ds.len() == 0 {
        Ok(out)
    } else {
        Err(ds)
    }
}

} // verus!
