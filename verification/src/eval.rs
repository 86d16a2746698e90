//! Evaluation semantics of an emitted conversion method: the fields are
//! evaluated in declaration order, and the first failing fallible mapping
//! short-circuits the whole conversion with its error. The mappings
//! themselves are user code; their outcomes arrive as arguments, one per
//! field, and only a fallible mapping may have failed.

use vstd::prelude::*;
use crate::emit::{FieldValue, Method};

verus! {

/// Whether a value expression can fail at conversion time.
pub open spec fn value_fallible(v: FieldValue) -> bool {
    v matches FieldValue::Call { fallible: true, .. }
}

/// The result of evaluating the outcomes from position `i` on: the first
/// error, or the remaining values in order.
pub open spec fn run_from(outs: Seq<Result<String, String>>, i: int) -> Result<Seq<String>, String>
    decreases outs.len() - i,
{
    if i < 0 || i >= outs.len() {
        Ok(Seq::empty())
    } else {
        match outs[i] {
            Err(e) => Err(e),
            Ok(v) => match run_from(outs, i + 1) {
                Ok(rest) => Ok(seq![v] + rest),
                Err(e) => Err(e),
            },
        }
    }
}

/// The result of a conversion: the first failing field's error, or every
/// field's value in declaration order.
pub open spec fn spec_run(outs: Seq<Result<String, String>>) -> Result<Seq<String>, String> {
    run_from(outs, 0)
}

/// Runs one conversion method over the outcome of each field's mapping:
/// the first error short-circuits, otherwise the output fields' values come
/// back in declaration order. Only a fallible mapping may have failed.
pub fn run_method(m: &Method, outcomes: &Vec<Result<String, String>>) -> (r: Result<
    Vec<String>,
    String,
>)
    requires
        outcomes@.len() == m.inits@.len(),
        forall|i: int|
            0 <= i < outcomes@.len() && (#[trigger] outcomes@[i]) is Err ==> value_fallible(
                m.inits@[i].value,
            ),
    ensures
        match r {
            Ok(vs) => spec_run(outcomes@) == Ok::<Seq<String>, String>(vs@),
            Err(e) => spec_run(outcomes@) == Err::<Seq<String>, String>(e),
        },
{
    let mut vals: Vec<String> = Vec::new();
    let mut i: usize = 0;
    while i < outcomes.len()
        invariant
            0 <= i <= outcomes@.len(),
            spec_run(outcomes@) == (match run_from(outcomes@, i as int) {
                Ok(rest) => Ok::<Seq<String>, String>(vals@ + rest),
                Err(e) => Err::<Seq<String>, String>(e),
            }),
        decreases outcomes@.len() - i,
    {
        let ghost old_vals = vals@;
        match &outcomes[i] {
            Ok(v) => {
                vals.push(v.clone());
                proof {
                    let here = outcomes@[i as int]->Ok_0;
                    assert(vals@ == old_vals + seq![here]);
                    match run_from(outcomes@, i as int + 1) {
                        Ok(rest) => {
                            assert(old_vals + (seq![here] + rest) =~= vals@ + rest);
                        },
                        Err(_) => {},
                    }
                }
            },
            Err(e) => {
                return Err(e.clone());
            },
        }
        i = i + 1;
    }
    proof {
        assert(vals@ + Seq::<String>::empty() =~= vals@);
    }
    Ok(vals)
}

/// When no mapping fails, the conversion returns every field's value, in
/// declaration order.
pub proof fn lemma_run_all_ok(outs: Seq<Result<String, String>>)
    requires
        forall|j: int| 0 <= j < outs.len() ==> (#[trigger] outs[j]) is Ok,
    ensures
        spec_run(outs) matches Ok(vs) && vs.len() == outs.len(),
        forall|j: int| 0 <= j < outs.len() ==> spec_run(outs)->Ok_0[j] == outs[j]->Ok_0,
{
    lemma_run_all_ok_from(outs, 0);
}

/// Helper for `lemma_run_all_ok`: the same statement from any starting
/// position.
proof fn lemma_run_all_ok_from(outs: Seq<Result<String, String>>, i: int)
    requires
        0 <= i <= outs.len(),
        forall|j: int| 0 <= j < outs.len() ==> (#[trigger] outs[j]) is Ok,
    ensures
        run_from(outs, i) matches Ok(vs) && vs.len() == outs.len() - i,
        forall|j: int|
            0 <= j < outs.len() - i ==> run_from(outs, i)->Ok_0[j] == outs[i + j]->Ok_0,
    decreases outs.len() - i,
{
    if i < outs.len() {
        lemma_run_all_ok_from(outs, i + 1);
    }
}

/// Evaluation stops at the first failing field: whatever the later outcomes
/// are, the conversion's result is exactly that field's error.
pub proof fn lemma_run_first_error(outs: Seq<Result<String, String>>, k: int)
    requires
        0 <= k < outs.len(),
        outs[k] is Err,
        forall|j: int| 0 <= j < k ==> (#[trigger] outs[j]) is Ok,
    ensures
        spec_run(outs) == Err::<Seq<String>, String>(outs[k]->Err_0),
{
    lemma_run_first_error_from(outs, k, 0);
}

/// Helper for `lemma_run_first_error`: the same statement from any starting
/// position at or before the failing field.
proof fn lemma_run_first_error_from(outs: Seq<Result<String, String>>, k: int, i: int)
    requires
        0 <= i <= k < outs.len(),
        outs[k] is Err,
        forall|j: int| 0 <= j < k ==> (#[trigger] outs[j]) is Ok,
    ensures
        run_from(outs, i) == Err::<Seq<String>, String>(outs[k]->Err_0),
    decreases k - i,
{
    if i < k {
        lemma_run_first_error_from(outs, k, i + 1);
    }
}

} // verus!
