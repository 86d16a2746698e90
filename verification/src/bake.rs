//! The transformation pipeline: classify every field, drop the ignored ones,
//! check cross-field consistency, synthesize each direction's values, and
//! assemble the two companion type definitions and the conversion methods —
//! or the collected diagnostics when any stage rejects the schema.

use vstd::prelude::*;
use vstd::string::StringExecFns;
use crate::adapt::{
    dir_errors, dir_fallible, dir_inits, resolve_name, resolve_ty, resolved_name, resolved_ty,
    synth_direction,
};
use crate::classify::{classify_diags, classify_fields};
use crate::consistency::{missing_diags, missing_mappings};
use crate::diag::{DiagKind, Diagnostic};
use crate::emit::{Emitted, FieldDef, Method, TypeDef};
use crate::schema::{Field, Struct};

verus! {

/// The fields that make it into the companion types: the non-ignored ones, in
/// declaration order.
pub open spec fn kept_fields(fs: Seq<Field>) -> Seq<Field>
    decreases fs.len(),
{
    if fs.len() == 0 {
        Seq::empty()
    } else if fs.last().ignore {
        kept_fields(fs.drop_last())
    } else {
        kept_fields(fs.drop_last()).push(fs.last())
    }
}

/// The companion-type definition of one field: resolved identifier and type,
/// source visibility.
pub open spec fn baked_field_def(f: Field) -> FieldDef {
    FieldDef { vis: f.vis, name: resolved_name(f), ty: resolved_ty(f) }
}

/// The companion types' field definitions, in declaration order. The borrowed
/// companion uses the same definitions behind a reference.
pub open spec fn field_defs(fs: Seq<Field>) -> Seq<FieldDef>
    decreases fs.len(),
{
    if fs.len() == 0 {
        Seq::empty()
    } else {
        field_defs(fs.drop_last()).push(baked_field_def(fs.last()))
    }
}

/// A direction's conversion method is emitted exactly when every kept field
/// contributes a value to it.
pub open spec fn method_emitted(kept: Seq<Field>, is_view: bool) -> bool {
    dir_inits(kept, is_view).len() == kept.len()
}

/// What the optional conversion method of one direction must be.
pub open spec fn method_matches(m: Option<Method>, kept: Seq<Field>, is_view: bool) -> bool {
    if method_emitted(kept, is_view) {
        &&& m matches Some(me)
        &&& me.fallible == dir_fallible(kept, is_view)
        &&& me.inits@ == dir_inits(kept, is_view)
    } else {
        m is None
    }
}

/// Whether an emitted direction is fallible while no error type is
/// configured — the one configuration error discovered downstream of the
/// per-field checks.
pub open spec fn fallible_without_error_type(s: Struct) -> bool {
    let kept = kept_fields(s.fields@);
    ((method_emitted(kept, true) && dir_fallible(kept, true)) || (method_emitted(kept, false)
        && dir_fallible(kept, false))) && s.error_type is None
}

/// Every diagnostic the transformation reports for a schema, stage by stage:
/// classification first, then cross-field consistency, then view synthesis,
/// then bake synthesis, then the error-type configuration check. Empty
/// exactly when the transformation succeeds.
pub open spec fn bake_diags(s: Struct) -> Seq<Diagnostic> {
    let cd = classify_diags(s.fields@);
    let kept = kept_fields(s.fields@);
    let md = missing_diags(kept);
    let ve = dir_errors(kept, true);
    let be = dir_errors(kept, false);
    if cd.len() > 0 {
        cd
    } else if md.len() > 0 {
        md
    } else if ve.len() > 0 {
        ve
    } else if be.len() > 0 {
        be
    } else if fallible_without_error_type(s) {
        seq![Diagnostic { kind: DiagKind::ErrorTypeRequired, span: None }]
    } else {
        Seq::empty()
    }
}

/// What the borrowed companion's name must be: the configured name, else the
/// owned companion's name with "View" appended.
pub open spec fn view_name_matches(n: String, s: Struct) -> bool {
    match s.name_view {
        Some(v) => n == v,
        None => n@ == s.name@ + "View"@,
    }
}

/// What the borrowed companion's generic parameters must be: a fresh lifetime
/// prepended to the source's own parameters.
pub open spec fn view_generics_match(vg: Seq<String>, src: Seq<String>) -> bool {
    &&& vg.len() == src.len() + 1
    &&& vg[0]@ == "'__a"@
    &&& vg.skip(1) == src
}

/// What a successful transformation emits for a schema.
pub open spec fn emitted_matches(em: Emitted, s: Struct) -> bool {
    let kept = kept_fields(s.fields@);
    &&& em.source_ident == s.ident
    &&& em.source_generics@ == s.generics@
    &&& em.error_type == s.error_type
    &&& em.baked.vis == s.vis
    &&& em.baked.name == s.name
    &&& em.baked.generics@ == s.generics@
    &&& em.baked.borrowed == false
    &&& em.baked.fields@ == field_defs(kept)
    &&& em.viewed.vis == s.vis
    &&& view_name_matches(em.viewed.name, s)
    &&& view_generics_match(em.viewed.generics@, s.generics@)
    &&& em.viewed.borrowed == true
    &&& em.viewed.fields@ == field_defs(kept)
    &&& method_matches(em.view_method, kept, true)
    &&& method_matches(em.bake_method, kept, false)
}

/// Output-name resolution needs a rename or a source identifier on every
/// field that can reach the emitter.
pub open spec fn fields_resolvable(fs: Seq<Field>) -> bool {
    forall|i: int|
        0 <= i < fs.len() && !(#[trigger] fs[i]).ignore ==> fs[i].name is Some
            || fs[i].ident is Some
}

/// Every kept field is a non-ignored field of the original list.
proof fn lemma_kept_fields(fs: Seq<Field>)
    ensures
        forall|i: int|
            0 <= i < kept_fields(fs).len() ==> !(#[trigger] kept_fields(fs)[i]).ignore
                && fs.contains(kept_fields(fs)[i]),
    decreases fs.len(),
{
    if fs.len() > 0 {
        lemma_kept_fields(fs.drop_last());
        assert forall|i: int| 0 <= i < kept_fields(fs).len() implies !(#[trigger] kept_fields(
            fs,
        )[i]).ignore && fs.contains(kept_fields(fs)[i]) by {
            let kd = kept_fields(fs.drop_last());
            if i < kd.len() {
                assert(kept_fields(fs)[i] == kd[i]);
                let j = choose|j: int| 0 <= j < fs.drop_last().len() && fs.drop_last()[j] == kd[i];
                assert(fs[j] == kd[i]);
            } else {
                assert(kept_fields(fs)[i] == fs.last());
                assert(fs[fs.len() - 1] == fs.last());
            }
        }
    }
}

/// Drops the ignored fields, keeping declaration order.
fn keep_fields(fields: Vec<Field>) -> (r: Vec<Field>)
    ensures
        r@ == kept_fields(fields@),
{
    let ghost orig = fields@;
    let mut rest = fields;
    let mut out: Vec<Field> = Vec::new();
    let ghost mut i: int = 0;
    while rest.len() > 0
        invariant
            0 <= i,
            i + rest@.len() == orig.len(),
            rest@ == orig.skip(i),
            out@ == kept_fields(orig.take(i)),
        decreases rest@.len(),
    {
        let f = rest.remove(0);
        proof {
            assert(f == orig[i]);
            assert(rest@ =~= orig.skip(i + 1));
            assert(orig.take(i + 1).drop_last() =~= orig.take(i));
            assert(orig.take(i + 1).last() == orig[i]);
        }
        if !f.ignore {
            out.push(f);
        }
        proof {
            i = i + 1;
        }
    }
    proof {
        assert(orig.take(i) =~= orig);
    }
    out
}

/// Copies the source's generic parameter list.
fn clone_strings(v: &Vec<String>) -> (r: Vec<String>)
    ensures
        r@ == v@,
{
    let mut out: Vec<String> = Vec::new();
    let mut i: usize = 0;
    while i < v.len()
        invariant
            0 <= i <= v@.len(),
            out@ == v@.take(i as int),
        decreases v@.len() - i,
    {
        out.push(v[i].clone());
        proof {
            assert(out@ =~= v@.take(i as int + 1));
        }
        i = i + 1;
    }
    proof {
        assert(v@.take(i as int) =~= v@);
    }
    out
}

/// Builds the companion types' field definitions.
fn make_field_defs(fields: &Vec<Field>) -> (r: Vec<FieldDef>)
    requires
        forall|i: int|
            0 <= i < fields@.len() ==> (#[trigger] fields@[i]).name is Some
                || fields@[i].ident is Some,
    ensures
        r@ == field_defs(fields@),
{
    let mut out: Vec<FieldDef> = Vec::new();
    let mut i: usize = 0;
    while i < fields.len()
        invariant
            0 <= i <= fields@.len(),
            forall|j: int|
                0 <= j < fields@.len() ==> (#[trigger] fields@[j]).name is Some
                    || fields@[j].ident is Some,
            out@ == field_defs(fields@.take(i as int)),
        decreases fields@.len() - i,
    {
        proof {
            assert(fields@.take(i as int + 1).drop_last() =~= fields@.take(i as int));
            assert(fields@.take(i as int + 1).last() == fields@[i as int]);
        }
        let f = &fields[i];
        let name = resolve_name(f);
        let ty = resolve_ty(f);
        out.push(FieldDef { vis: f.vis.clone(), name, ty });
        i = i + 1;
    }
    proof {
        assert(fields@.take(i as int) =~= fields@);
    }
    out
}

/// The borrowed companion's default name: the owned companion's name with
/// "View" appended.
fn default_view_name(name: &String) -> (r: String)
    ensures
        r@ == name@ + "View"@,
{
    name.clone().concat("View")
}

/// The borrowed companion's generic parameters: a fresh lifetime prepended to
/// the source's own.
fn make_view_generics(generics: &Vec<String>) -> (r: Vec<String>)
    ensures
        view_generics_match(r@, generics@),
{
    let mut out: Vec<String> = Vec::new();
    out.push("'__a".to_owned());
    let mut rest = clone_strings(generics);
    out.append(&mut rest);
    proof {
        assert(out@.skip(1) =~= generics@);
    }
    out
}

/// Transforms one decoded schema into the description of what to emit, or
/// into every diagnostic the schema earns. The stages run in order —
/// classification, cross-field consistency, view synthesis, bake synthesis,
/// error-type configuration — and each reports all its violations at once.
pub fn bake(s: Struct) -> (r: Result<Emitted, Vec<Diagnostic>>)
    requires
        fields_resolvable(s.fields@),
    ensures
        bake_diags(s).len() == 0 ==> (r matches Ok(em) && emitted_matches(em, s)),
        bake_diags(s).len() != 0 ==> (r matches Err(ds) && ds@ == bake_diags(s)),
{
    let Struct { ident, vis, generics, fields, name, name_view, error_type } = s;

    let fields = match classify_fields(fields) {
        Ok(fs) => fs,
        Err(ds) => {
            return Err(ds);
        },
    };

    let kept = keep_fields(fields);
    proof {
        lemma_kept_fields(s.fields@);
        assert forall|i: int|
            0 <= i < kept@.len() implies (#[trigger] kept@[i]).name is Some
            || kept@[i].ident is Some by {
            let j = choose|j: int| 0 <= j < s.fields@.len() && s.fields@[j] == kept@[i];
            assert(!s.fields@[j].ignore);
        }
    }

    let miss = missing_mappings(&kept);
    if miss.len() > 0 {
        return Err(miss);
    }

    let (view_inits, view_fallible) = match synth_direction(&kept, true) {
        Ok(p) => p,
        Err(ds) => {
            return Err(ds);
        },
    };
    let (bake_inits, bake_fallible) = match synth_direction(&kept, false) {
        Ok(p) => p,
        Err(ds) => {
            return Err(ds);
        },
    };

    let view_method = if view_inits.len() == kept.len() {
        Some(Method { fallible: view_fallible, inits: view_inits })
    } else {
        None
    };
    let bake_method = if bake_inits.len() == kept.len() {
        Some(Method { fallible: bake_fallible, inits: bake_inits })
    } else {
        None
    };

    let emitted_fallible = (match &view_method {
        Some(m) => m.fallible,
        None => false,
    }) || (match &bake_method {
        Some(m) => m.fallible,
        None => false,
    });
    if emitted_fallible && error_type.is_none() {
        return Err(vec![Diagnostic { kind: DiagKind::ErrorTypeRequired, span: None }]);
    }

    let baked = TypeDef {
        vis: vis.clone(),
        name: name.clone(),
        generics: clone_strings(&generics),
        borrowed: false,
        fields: make_field_defs(&kept),
    };
    let view_name = match name_view {
        Some(n) => n,
        None => default_view_name(&name),
    };
    let viewed = TypeDef {
        vis,
        name: view_name,
        generics: make_view_generics(&generics),
        borrowed: true,
        fields: make_field_defs(&kept),
    };

    Ok(
        Emitted {
            source_ident: ident,
            source_generics: generics,
            error_type,
            baked,
            viewed,
            view_method,
            bake_method,
        },
    )
}

} // verus!
