//! The value bridge: the total, panic-free conversion from the dynamic value
//! model to the canonical one.
//!
//! The mapping is [`canon_of`]; [`to_canonical`] computes it. Dispatch, by
//! dynamic kind:
//! - `Undefined`, `Null` and `Other` all become canonical `Null`: the target
//!   model cannot tell "absent" from "null" from "unsupported kind".
//! - `Bool`, `Int` and `Text` carry over unchanged.
//! - `Float` becomes a canonical number when finite, and `Null` otherwise:
//!   JSON has no NaN and no infinities.
//! - `Array` converts element by element, in index order.
//! - `Object` converts pair by pair, keeping the key order of the source.
//!
//! Recursion is depth-limited: a value nested more than [`MAX_DEPTH`]
//! container levels deep degrades to `Null` at the cutoff, so conversion of a
//! pathological structure costs bounded stack instead of exhausting it. The
//! fuel argument of [`canon_of`] counts the container levels still allowed.

use vstd::prelude::*;

use crate::value::CanonNumber;
use crate::value::CanonVal;
use crate::value::CanonValue;
use crate::value::DynVal;
use crate::value::DynValue;
use crate::value::canon_prop_views;
use crate::value::canon_val_wf;
use crate::value::canon_views;
use crate::value::double_is_finite;
use crate::value::dyn_prop_views;
use crate::value::dyn_view;
use crate::value::dyn_views;
use crate::value::is_finite_bits;
use crate::value::lemma_canon_prop_views;
use crate::value::lemma_canon_views;
use crate::value::lemma_dyn_prop_views;
use crate::value::lemma_dyn_views;

verus! {

/// How many container levels the conversion follows before it degrades the
/// rest of an over-deep structure to `Null`.
pub const MAX_DEPTH: u32 = 64;

/// The canonical value of a dynamic value, with `fuel` container levels still
/// allowed: the specification of the bridge.
pub open spec fn canon_of(d: DynVal, fuel: nat) -> CanonVal
    decreases fuel,
{
    match d {
        DynVal::Undefined => CanonVal::Null,
        DynVal::Null => CanonVal::Null,
        DynVal::Other => CanonVal::Null,
        DynVal::Bool(b) => CanonVal::Bool(b),
        DynVal::Int(i) => CanonVal::Number(CanonNumber::Int(i)),
        DynVal::Float(bits) => if double_is_finite(bits) {
            CanonVal::Number(CanonNumber::Double(bits))
        } else {
            CanonVal::Null
        },
        DynVal::Text(s) => CanonVal::Text(s),
        DynVal::Array(items) => if fuel == 0 {
            CanonVal::Null
        } else {
            CanonVal::Array(
                Seq::new(items.len(), |i: int| canon_of(items[i], (fuel - 1) as nat)),
            )
        },
        DynVal::Object(props) => if fuel == 0 {
            CanonVal::Null
        } else {
            CanonVal::Object(
                Seq::new(
                    props.len(),
                    |i: int| (props[i].0, canon_of(props[i].1, (fuel - 1) as nat)),
                ),
            )
        },
    }
}

/// Totality with a well-formed result: whatever the dynamic value and the
/// fuel, the bridge yields exactly one canonical value, and every number in
/// it is JSON-representable.
pub proof fn lemma_canon_of_wf(d: DynVal, fuel: nat)
    ensures
        canon_val_wf(canon_of(d, fuel)),
    decreases fuel,
{
    match d {
        DynVal::Array(items) => {
            if fuel > 0 {
                assert forall|i: int| 0 <= i < items.len() implies canon_val_wf(
                    #[trigger] canon_of(d, fuel)->Array_0[i],
                ) by {
                    lemma_canon_of_wf(items[i], (fuel - 1) as nat);
                }
            }
        },
        DynVal::Object(props) => {
            if fuel > 0 {
                assert forall|i: int| 0 <= i < props.len() implies canon_val_wf(
                    #[trigger] canon_of(d, fuel)->Object_0[i].1,
                ) by {
                    lemma_canon_of_wf(props[i].1, (fuel - 1) as nat);
                }
            }
        },
        _ => {},
    }
}

/// A non-finite number degrades to `Null` instead of failing the conversion.
pub proof fn lemma_nonfinite_degrades_to_null(bits: u64, fuel: nat)
    requires
        !double_is_finite(bits),
    ensures
        canon_of(DynVal::Float(bits), fuel) == CanonVal::Null,
{
}

/// Arrays keep their length and their element order: within the depth limit,
/// slot `i` of the result is the conversion of slot `i` of the source.
pub proof fn lemma_array_order_preserved(items: Seq<DynVal>, fuel: nat)
    requires
        fuel > 0,
    ensures
        canon_of(DynVal::Array(items), fuel) matches CanonVal::Array(out) && out.len()
            == items.len() && forall|i: int|
            0 <= i < items.len() ==> #[trigger] out[i] == canon_of(items[i], (fuel - 1) as nat),
{
}

/// Objects keep their keys in source order: within the depth limit, pair `i`
/// of the result carries the key of pair `i` of the source, and the
/// conversion of its value.
pub proof fn lemma_object_order_preserved(props: Seq<(Seq<char>, DynVal)>, fuel: nat)
    requires
        fuel > 0,
    ensures
        canon_of(DynVal::Object(props), fuel) matches CanonVal::Object(out) && out.len()
            == props.len() && forall|i: int|
            0 <= i < props.len() ==> #[trigger] out[i] == (
                props[i].0,
                canon_of(props[i].1, (fuel - 1) as nat),
            ),
{
}

/// A dynamic value is JSON-representable within `fuel` container levels: it
/// holds no `Undefined` and no `Other`, every double in it is finite, and it
/// nests at most `fuel` container levels deep.
pub open spec fn jsonable(d: DynVal, fuel: nat) -> bool
    decreases fuel,
{
    match d {
        DynVal::Undefined => false,
        DynVal::Null => true,
        DynVal::Bool(_) => true,
        DynVal::Int(_) => true,
        DynVal::Float(bits) => double_is_finite(bits),
        DynVal::Text(_) => true,
        DynVal::Array(items) => fuel > 0 && forall|i: int|
            0 <= i < items.len() ==> jsonable(#[trigger] items[i], (fuel - 1) as nat),
        DynVal::Object(props) => fuel > 0 && forall|i: int|
            0 <= i < props.len() ==> jsonable(#[trigger] props[i].1, (fuel - 1) as nat),
        DynVal::Other => false,
    }
}

/// Round trip: on JSON-representable values the bridge loses nothing. Two
/// such values with the same canonical image are the same value, so the
/// canonical result determines the source literal exactly.
pub proof fn lemma_bridge_injective_on_jsonable(d1: DynVal, d2: DynVal, fuel: nat)
    requires
        jsonable(d1, fuel),
        jsonable(d2, fuel),
        canon_of(d1, fuel) == canon_of(d2, fuel),
    ensures
        d1 == d2,
    decreases fuel,
{
    match (d1, d2) {
        (DynVal::Array(items1), DynVal::Array(items2)) => {
            let s1 = canon_of(d1, fuel)->Array_0;
            let s2 = canon_of(d2, fuel)->Array_0;
            assert(s1.len() == items1.len());
            assert(s2.len() == items2.len());
            assert forall|i: int| 0 <= i < items1.len() implies items1[i] == items2[i] by {
                assert(s1[i] == canon_of(items1[i], (fuel - 1) as nat));
                assert(s2[i] == canon_of(items2[i], (fuel - 1) as nat));
                lemma_bridge_injective_on_jsonable(items1[i], items2[i], (fuel - 1) as nat);
            }
            assert(items1 =~= items2);
        },
        (DynVal::Object(props1), DynVal::Object(props2)) => {
            let s1 = canon_of(d1, fuel)->Object_0;
            let s2 = canon_of(d2, fuel)->Object_0;
            assert(s1.len() == props1.len());
            assert(s2.len() == props2.len());
            assert forall|i: int| 0 <= i < props1.len() implies props1[i] == props2[i] by {
                assert(s1[i] == (props1[i].0, canon_of(props1[i].1, (fuel - 1) as nat)));
                assert(s2[i] == (props2[i].0, canon_of(props2[i].1, (fuel - 1) as nat)));
                lemma_bridge_injective_on_jsonable(props1[i].1, props2[i].1, (fuel - 1) as nat);
                assert(props1[i] == (props1[i].0, props1[i].1));
                assert(props2[i] == (props2[i].0, props2[i].1));
            }
            assert(props1 =~= props2);
        },
        _ => {},
    }
}

/// How deep a dynamic value nests: true when it stays within `fuel` container
/// levels.
pub open spec fn dyn_depth_le(d: DynVal, fuel: nat) -> bool
    decreases d,
{
    match d {
        DynVal::Array(items) => fuel > 0 && forall|i: int|
            0 <= i < items.len() ==> dyn_depth_le(#[trigger] items[i], (fuel - 1) as nat),
        DynVal::Object(props) => fuel > 0 && forall|i: int|
            0 <= i < props.len() ==> dyn_depth_le(#[trigger] props[i].1, (fuel - 1) as nat),
        _ => true,
    }
}

/// The depth limit only touches over-deep structures: on a value that nests
/// within `k` levels, any fuel of at least `k` converts it the same way.
pub proof fn lemma_canon_of_fuel_irrelevant(d: DynVal, k: nat, f: nat)
    requires
        dyn_depth_le(d, k),
        k <= f,
    ensures
        canon_of(d, f) == canon_of(d, k),
    decreases k,
{
    match d {
        DynVal::Array(items) => {
            let s1 = canon_of(d, f)->Array_0;
            let s2 = canon_of(d, k)->Array_0;
            assert forall|i: int| 0 <= i < items.len() implies s1[i] == s2[i] by {
                lemma_canon_of_fuel_irrelevant(items[i], (k - 1) as nat, (f - 1) as nat);
            }
            assert(s1 =~= s2);
        },
        DynVal::Object(props) => {
            let s1 = canon_of(d, f)->Object_0;
            let s2 = canon_of(d, k)->Object_0;
            assert forall|i: int| 0 <= i < props.len() implies s1[i] == s2[i] by {
                lemma_canon_of_fuel_irrelevant(props[i].1, (k - 1) as nat, (f - 1) as nat);
            }
            assert(s1 =~= s2);
        },
        _ => {},
    }
}

/// Convert one dynamic value, with `fuel` container levels still allowed.
fn to_canonical_at(v: &DynValue, fuel: u32) -> (r: CanonValue)
    ensures
        r@ == canon_of(v@, fuel as nat),
    decreases fuel,
{
    match v {
        DynValue::Undefined => CanonValue::Null,
        DynValue::Null => CanonValue::Null,
        DynValue::Other => CanonValue::Null,
        DynValue::Bool(b) => CanonValue::Bool(*b),
        DynValue::Int(i) => CanonValue::Number(CanonNumber::Int(*i)),
        DynValue::Float(bits) => {
            if is_finite_bits(*bits) {
                CanonValue::Number(CanonNumber::Double(*bits))
            } else {
                CanonValue::Null
            }
        },
        DynValue::Text(s) => CanonValue::Text(s.clone()),
        DynValue::Array(items) => {
            if fuel == 0 {
                CanonValue::Null
            } else {
                let ghost gitems = dyn_views(items@);
                proof {
                    lemma_dyn_views(items@);
                }
                let mut out: Vec<CanonValue> = Vec::new();
                let mut i: usize = 0;
                while i < items.len()
                    invariant
                        1 <= fuel,
                        i <= items@.len(),
                        out@.len() == i,
                        gitems == dyn_views(items@),
                        gitems.len() == items@.len(),
                        forall|j: int| 0 <= j < items@.len() ==> gitems[j] == dyn_view(items@[j]),
                        forall|j: int|
                            0 <= j < i ==> #[trigger] out@[j]@ == canon_of(
                                gitems[j],
                                (fuel - 1) as nat,
                            ),
                    decreases items@.len() - i,
                {
                    let c = to_canonical_at(&items[i], fuel - 1);
                    out.push(c);
                    i += 1;
                }
                proof {
                    lemma_canon_views(out@);
                    let target = canon_of(v@, fuel as nat)->Array_0;
                    assert forall|j: int| 0 <= j < gitems.len() implies canon_views(out@)[j]
                        == target[j] by {
                        assert(out@[j]@ == canon_of(gitems[j], (fuel - 1) as nat));
                        assert(target[j] == canon_of(gitems[j], (fuel as nat - 1) as nat));
                    }
                    assert(canon_views(out@) =~= target);
                }
                CanonValue::Array(out)
            }
        },
        DynValue::Object(props) => {
            if fuel == 0 {
                CanonValue::Null
            } else {
                let ghost gprops = dyn_prop_views(props@);
                proof {
                    lemma_dyn_prop_views(props@);
                }
                let mut out: Vec<(String, CanonValue)> = Vec::new();
                let mut i: usize = 0;
                while i < props.len()
                    invariant
                        1 <= fuel,
                        i <= props@.len(),
                        out@.len() == i,
                        gprops == dyn_prop_views(props@),
                        gprops.len() == props@.len(),
                        forall|j: int|
                            0 <= j < props@.len() ==> gprops[j] == (
                                props@[j].0@,
                                dyn_view(props@[j].1),
                            ),
                        forall|j: int|
                            0 <= j < i ==> (#[trigger] out@[j].0)@ == gprops[j].0 && out@[j].1@
                                == canon_of(gprops[j].1, (fuel - 1) as nat),
                    decreases props@.len() - i,
                {
                    let key = props[i].0.clone();
                    let c = to_canonical_at(&props[i].1, fuel - 1);
                    out.push((key, c));
                    i += 1;
                }
                proof {
                    lemma_canon_prop_views(out@);
                    let target = canon_of(v@, fuel as nat)->Object_0;
                    assert forall|j: int| 0 <= j < gprops.len() implies canon_prop_views(out@)[j]
                        == target[j] by {
                        assert((out@[j].0)@ == gprops[j].0);
                        assert(out@[j].1@ == canon_of(gprops[j].1, (fuel - 1) as nat));
                        assert(target[j] == (gprops[j].0, canon_of(gprops[j].1, (fuel as nat - 1) as nat)));
                    }
                    assert(canon_prop_views(out@) =~= target);
                }
                CanonValue::Object(out)
            }
        },
    }
}

/// The value bridge: the canonical value of a dynamic value, total and
/// panic-free, with the documented depth limit [`MAX_DEPTH`].
pub fn to_canonical(v: &DynValue) -> (r: CanonValue)
    ensures
        r@ == canon_of(v@, MAX_DEPTH as nat),
        canon_val_wf(r@),
{
    proof {
        lemma_canon_of_wf(v@, MAX_DEPTH as nat);
    }
    to_canonical_at(v, MAX_DEPTH)
}

} // verus!
