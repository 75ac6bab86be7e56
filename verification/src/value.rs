//! The two value models.
//!
//! [`DynValue`] mirrors the open, runtime-typed value model of the embedded
//! script engine: one variant per engine kind the conversion distinguishes,
//! plus [`DynValue::Other`] as the catch-all for every engine-specific kind
//! that the canonical model cannot represent. A floating-point number is
//! carried as its IEEE-754 bit pattern, so that finiteness is a plain
//! bit-level predicate.
//!
//! [`CanonValue`] is the closed, JSON-like target model. Its well-formedness
//! invariant, [`canon_val_wf`], asks exactly that every number in the tree is
//! representable in JSON: an integer, or a finite double.

use vstd::prelude::*;

verus! {

/// A number of the canonical model: an exact integer, or a double carried as
/// its IEEE-754 bit pattern.
#[derive(Clone, Copy, Debug, PartialEq, Eq, Structural)]
pub enum CanonNumber {
    Int(i32),
    Double(u64),
}

/// A dynamically typed value handed over by the script engine.
#[derive(Debug)]
pub enum DynValue {
    /// The engine's `undefined`, and the uninitialized state it reports for
    /// bindings in a temporal dead zone; the canonical model cannot tell the
    /// two apart, so neither does this one.
    Undefined,
    Null,
    Bool(bool),
    Int(i32),
    /// A double, as its IEEE-754 bit pattern.
    Float(u64),
    Text(String),
    Array(Vec<DynValue>),
    /// Own enumerable properties, in encounter order.
    Object(Vec<(String, DynValue)>),
    /// Any engine kind the canonical model cannot represent (a function, a
    /// symbol, a promise, ...), and any value whose payload the engine could
    /// not hand over.
    Other,
}

/// The closed, JSON-like canonical value.
#[derive(Debug, PartialEq)]
pub enum CanonValue {
    Null,
    Bool(bool),
    Number(CanonNumber),
    Text(String),
    Array(Vec<CanonValue>),
    /// Key/value pairs, in the key order observed on the source value.
    Object(Vec<(String, CanonValue)>),
}

/// Mathematical model of [`DynValue`].
pub enum DynVal {
    Undefined,
    Null,
    Bool(bool),
    Int(i32),
    Float(u64),
    Text(Seq<char>),
    Array(Seq<DynVal>),
    Object(Seq<(Seq<char>, DynVal)>),
    Other,
}

/// Mathematical model of [`CanonValue`].
pub enum CanonVal {
    Null,
    Bool(bool),
    Number(CanonNumber),
    Text(Seq<char>),
    Array(Seq<CanonVal>),
    Object(Seq<(Seq<char>, CanonVal)>),
}

/// Model of a dynamic value: each variant maps to its mathematical mirror.
pub open spec fn dyn_view(d: DynValue) -> DynVal
    decreases d,
{
    match d {
        DynValue::Undefined => DynVal::Undefined,
        DynValue::Null => DynVal::Null,
        DynValue::Bool(b) => DynVal::Bool(b),
        DynValue::Int(i) => DynVal::Int(i),
        DynValue::Float(bits) => DynVal::Float(bits),
        DynValue::Text(s) => DynVal::Text(s@),
        DynValue::Array(items) => DynVal::Array(dyn_views(items@)),
        DynValue::Object(props) => DynVal::Object(dyn_prop_views(props@)),
        DynValue::Other => DynVal::Other,
    }
}

/// Pointwise model of a sequence of dynamic values.
pub open spec fn dyn_views(s: Seq<DynValue>) -> Seq<DynVal>
    decreases s,
{
    if s.len() == 0 {
        Seq::empty()
    } else {
        dyn_views(s.drop_last()).push(dyn_view(s.last()))
    }
}

/// Pointwise model of a sequence of dynamic key/value pairs.
pub open spec fn dyn_prop_views(s: Seq<(String, DynValue)>) -> Seq<(Seq<char>, DynVal)>
    decreases s,
{
    if s.len() == 0 {
        Seq::empty()
    } else {
        dyn_prop_views(s.drop_last()).push((s.last().0@, dyn_view(s.last().1)))
    }
}

impl View for DynValue {
    type V = DynVal;

    open spec fn view(&self) -> DynVal {
        dyn_view(*self)
    }
}

/// Model of a canonical value: each variant maps to its mathematical mirror.
pub open spec fn canon_view(c: CanonValue) -> CanonVal
    decreases c,
{
    match c {
        CanonValue::Null => CanonVal::Null,
        CanonValue::Bool(b) => CanonVal::Bool(b),
        CanonValue::Number(n) => CanonVal::Number(n),
        CanonValue::Text(s) => CanonVal::Text(s@),
        CanonValue::Array(items) => CanonVal::Array(canon_views(items@)),
        CanonValue::Object(props) => CanonVal::Object(canon_prop_views(props@)),
    }
}

/// Pointwise model of a sequence of canonical values.
pub open spec fn canon_views(s: Seq<CanonValue>) -> Seq<CanonVal>
    decreases s,
{
    if s.len() == 0 {
        Seq::empty()
    } else {
        canon_views(s.drop_last()).push(canon_view(s.last()))
    }
}

/// Pointwise model of a sequence of canonical key/value pairs.
pub open spec fn canon_prop_views(s: Seq<(String, CanonValue)>) -> Seq<(Seq<char>, CanonVal)>
    decreases s,
{
    if s.len() == 0 {
        Seq::empty()
    } else {
        canon_prop_views(s.drop_last()).push((s.last().0@, canon_view(s.last().1)))
    }
}

impl View for CanonValue {
    type V = CanonVal;

    open spec fn view(&self) -> CanonVal {
        canon_view(*self)
    }
}

/// The sequence models are pointwise: same length, element by element.
pub proof fn lemma_dyn_views(s: Seq<DynValue>)
    ensures
        dyn_views(s).len() == s.len(),
        forall|i: int| 0 <= i < s.len() ==> dyn_views(s)[i] == dyn_view(s[i]),
    decreases s,
{
    if s.len() > 0 {
        lemma_dyn_views(s.drop_last());
    }
}

/// The pair-sequence models are pointwise: same length, pair by pair.
pub proof fn lemma_dyn_prop_views(s: Seq<(String, DynValue)>)
    ensures
        dyn_prop_views(s).len() == s.len(),
        forall|i: int| 0 <= i < s.len() ==> dyn_prop_views(s)[i] == (s[i].0@, dyn_view(
            s[i].1,
        )),
    decreases s,
{
    if s.len() > 0 {
        lemma_dyn_prop_views(s.drop_last());
    }
}

/// The sequence models are pointwise: same length, element by element.
pub proof fn lemma_canon_views(s: Seq<CanonValue>)
    ensures
        canon_views(s).len() == s.len(),
        forall|i: int| 0 <= i < s.len() ==> canon_views(s)[i] == canon_view(s[i]),
    decreases s,
{
    if s.len() > 0 {
        lemma_canon_views(s.drop_last());
    }
}

/// The pair-sequence models are pointwise: same length, pair by pair.
pub proof fn lemma_canon_prop_views(s: Seq<(String, CanonValue)>)
    ensures
        canon_prop_views(s).len() == s.len(),
        forall|i: int| 0 <= i < s.len() ==> canon_prop_views(s)[i] == (s[i].0@, canon_view(
            s[i].1,
        )),
    decreases s,
{
    if s.len() > 0 {
        lemma_canon_prop_views(s.drop_last());
    }
}

/// Finiteness of a double, read off its IEEE-754 bit pattern: the value is
/// NaN or an infinity exactly when all eleven exponent bits are set.
pub open spec fn double_is_finite(bits: u64) -> bool {
    (bits >> 52) & 0x7ff != 0x7ff
}

/// A canonical number is well formed when it is JSON-representable: integers
/// always are, a double only when finite.
pub open spec fn canon_num_wf(n: CanonNumber) -> bool {
    match n {
        CanonNumber::Int(_) => true,
        CanonNumber::Double(bits) => double_is_finite(bits),
    }
}

/// Well-formedness of a canonical value: every number in the tree is
/// JSON-representable.
pub open spec fn canon_val_wf(c: CanonVal) -> bool
    decreases c,
{
    match c {
        CanonVal::Null => true,
        CanonVal::Bool(_) => true,
        CanonVal::Number(n) => canon_num_wf(n),
        CanonVal::Text(_) => true,
        CanonVal::Array(items) => forall|i: int|
            0 <= i < items.len() ==> canon_val_wf(#[trigger] items[i]),
        CanonVal::Object(props) => forall|i: int|
            0 <= i < props.len() ==> canon_val_wf(#[trigger] props[i].1),
    }
}

/// Exec check of [`double_is_finite`].
pub fn is_finite_bits(bits: u64) -> (r: bool)
    ensures
        r == double_is_finite(bits),
{
    (bits >> 52) & 0x7ff != 0x7ff
}

} // verus!
