//! The engine host: creates an isolated script runtime and context per
//! invocation, executes the script text, resolves a named global binding,
//! reads the binding's dynamically typed value into [`DynValue`], converts it
//! through the bridge, and reports every lifecycle failure through the
//! envelope.
//!
//! Every call into the embedded engine stands behind a small trusted wrapper;
//! the lifecycle decisions, the traversal of the engine's values and the
//! failure classification are verified code. Nothing is retried, and no
//! engine state outlives one invocation.
//!
//! Execution is synchronous and has no deadline: a script that never returns
//! blocks its invocation indefinitely. Callers that need a watchdog must put
//! one around the invocation.

use vstd::prelude::*;

use crate::bridge::MAX_DEPTH;
use crate::bridge::canon_of;
use crate::bridge::dyn_depth_le;
use crate::bridge::lemma_canon_of_wf;
use crate::bridge::to_canonical;
use crate::envelope::Results;
use crate::value::CanonValue;
use crate::value::DynVal;
use crate::value::DynValue;
use crate::value::canon_val_wf;
use crate::value::dyn_prop_views;
use crate::value::dyn_view;
use crate::value::dyn_views;
use crate::value::lemma_dyn_prop_views;
use crate::value::lemma_dyn_views;
use vstd::string::StringExecFns;

verus! {

#[verifier::external_type_specification]
#[verifier::external_body]
/// The engine's isolated runtime, opaque to the library.
pub struct ExRuntime(rquickjs::Runtime);

#[verifier::external_type_specification]
#[verifier::external_body]
/// A single global-scope instance bound to a runtime, opaque to the library.
pub struct ExContext(rquickjs::Context);

#[verifier::external_type_specification]
#[verifier::external_body]
/// A dynamically typed engine value, opaque to the library; only the trusted
/// accessors below read it.
pub struct ExValue<'js>(rquickjs::Value<'js>);

/// The engine kinds that the conversion tells apart. Every kind the canonical
/// model cannot represent collapses into `Other`.
pub enum ValueKind {
    Undefined,
    Null,
    Bool,
    Int,
    Float,
    Text,
    Array,
    Object,
    Other,
}

/// Relies on rquickjs::Runtime::new: a fresh, isolated engine runtime, or the
/// engine's error text when the engine cannot initialize.
#[verifier::external_body]
fn rt_new() -> (r: Result<rquickjs::Runtime, String>) {
    rquickjs::Runtime::new().map_err(|e| e.to_string())
}

/// Relies on rquickjs::Context::full: a fresh execution context bound to the
/// given runtime, or the engine's error text.
#[verifier::external_body]
fn ctx_new(rt: &rquickjs::Runtime) -> (r: Result<rquickjs::Context, String>) {
    rquickjs::Context::full(rt).map_err(|e| e.to_string())
}

/// Relies on rquickjs::Context::with and rquickjs::Ctx::eval: runs the script
/// text in the context's global scope, discarding any direct result; on a
/// syntax error or an uncaught script exception, the engine's error text.
#[verifier::external_body]
fn ctx_eval(ctx: &rquickjs::Context, code: &str) -> (r: Result<(), String>) {
    ctx.with(|c| c.eval::<(), _>(code).map_err(|e| e.to_string()))
}

/// Relies on rquickjs::Object::contains_key on the context's global object:
/// whether the global scope has a binding of this name, or the engine's error
/// text.
#[verifier::external_body]
fn global_exists(ctx: &rquickjs::Context, name: &str) -> (r: Result<bool, String>) {
    ctx.with(|c| c.globals().contains_key(name).map_err(|e| e.to_string()))
}

/// Relies on rquickjs::Object::get on the context's global object: reads the
/// named global binding and hands it to the verified [`extract_value`], whose
/// proved depth bound the `ensures` repeats; or the engine's error text.
#[verifier::external_body]
fn global_get(ctx: &rquickjs::Context, name: &str) -> (r: Result<DynValue, String>)
    ensures
        r matches Ok(v) ==> dyn_depth_le(v@, MAX_DEPTH as nat),
{
    ctx.with(|c| match c.globals().get::<_, rquickjs::Value>(name) {
        Ok(v) => Ok(extract_value(&v, MAX_DEPTH)),
        Err(e) => Err(e.to_string()),
    })
}

/// Relies on rquickjs::Value::type_of: the engine's kind tag of the value,
/// one arm per tag, every tag the canonical model cannot represent as
/// `Other`.
#[verifier::external_body]
fn val_kind(v: &rquickjs::Value) -> (r: ValueKind) {
    match v.type_of() {
        rquickjs::Type::Undefined | rquickjs::Type::Uninitialized => ValueKind::Undefined,
        rquickjs::Type::Null => ValueKind::Null,
        rquickjs::Type::Bool => ValueKind::Bool,
        rquickjs::Type::Int => ValueKind::Int,
        rquickjs::Type::Float => ValueKind::Float,
        rquickjs::Type::String => ValueKind::Text,
        rquickjs::Type::Array => ValueKind::Array,
        rquickjs::Type::Object => ValueKind::Object,
        _ => ValueKind::Other,
    }
}

/// Relies on rquickjs::Value::as_bool: the payload of a boolean value, `None`
/// when the engine cannot hand it over.
#[verifier::external_body]
fn val_as_bool(v: &rquickjs::Value) -> (r: Option<bool>) {
    v.as_bool()
}

/// Relies on rquickjs::Value::as_int: the payload of an integer value, `None`
/// when the engine cannot hand it over.
#[verifier::external_body]
fn val_as_int(v: &rquickjs::Value) -> (r: Option<i32>) {
    v.as_int()
}

/// Relies on rquickjs::Value::as_float: the IEEE-754 bit pattern of a
/// floating-point value, `None` when the engine cannot hand it over.
#[verifier::external_body]
fn val_as_float_bits(v: &rquickjs::Value) -> (r: Option<u64>) {
    v.as_float().map(|f| f.to_bits())
}

/// Relies on rquickjs::Value::as_string and rquickjs::String::to_string: the
/// text of a string value, `None` when the engine cannot hand it over or the
/// text does not materialize as valid UTF-8.
#[verifier::external_body]
fn val_as_text(v: &rquickjs::Value) -> (r: Option<String>) {
    v.as_string().and_then(|s| s.to_string().ok())
}

/// Relies on rquickjs::Object::get of the array's own length property and
/// rquickjs::Value::as_int: the length of an array value. The engine stores a
/// length beyond the int range as a float; that, a negative int, or an array
/// the engine cannot hand over all yield `None`, and the value degrades.
#[verifier::external_body]
fn val_array_len(v: &rquickjs::Value) -> (r: Option<usize>) {
    v.as_object()
        .and_then(|o| o.get::<_, rquickjs::Value>("length").ok())
        .and_then(|l| l.as_int())
        .and_then(|n| usize::try_from(n).ok())
}

/// Relies on rquickjs::Value::as_array and rquickjs::Array::get: the element
/// at this index, `None` when the engine cannot read it.
#[verifier::external_body]
fn val_array_get<'js>(v: &rquickjs::Value<'js>, i: usize) -> (r: Option<rquickjs::Value<'js>>) {
    v.as_array().and_then(|a| a.get::<rquickjs::Value>(i).ok())
}

/// Relies on rquickjs::Value::as_object and rquickjs::Object::keys: the own
/// enumerable string property names in encounter order, each `None` where the
/// engine could not hand the name over; `None` when the value is no object.
#[verifier::external_body]
fn val_object_keys(v: &rquickjs::Value) -> (r: Option<Vec<Option<String>>>) {
    v.as_object().map(|o| o.keys::<String>().map(|k| k.ok()).collect())
}

/// Relies on rquickjs::Object::get: the value of the named property, `None`
/// when the engine cannot read it (a throwing getter, for one) or the value
/// is no object.
#[verifier::external_body]
fn obj_get_value<'js>(v: &rquickjs::Value<'js>, key: &str) -> (r: Option<rquickjs::Value<'js>>) {
    v.as_object().and_then(|o| o.get::<_, rquickjs::Value>(key).ok())
}

/// A scalar payload as one trusted accessor handed it over: present, or
/// unreadable at the engine boundary.
pub enum ScalarRead {
    Bool(Option<bool>),
    Int(Option<i32>),
    Float(Option<u64>),
    Text(Option<String>),
}

/// The scalar half of the degradation policy: a payload the engine handed
/// over carries into its dynamic variant; one it could not hand over
/// degrades to `Other`, never to an error.
pub open spec fn scalar_read_value(p: ScalarRead) -> DynValue {
    match p {
        ScalarRead::Bool(op) => match op {
            Some(b) => DynValue::Bool(b),
            None => DynValue::Other,
        },
        ScalarRead::Int(op) => match op {
            Some(i) => DynValue::Int(i),
            None => DynValue::Other,
        },
        ScalarRead::Float(op) => match op {
            Some(bits) => DynValue::Float(bits),
            None => DynValue::Other,
        },
        ScalarRead::Text(op) => match op {
            Some(s) => DynValue::Text(s),
            None => DynValue::Other,
        },
    }
}

/// Apply [`scalar_read_value`] to one scalar read.
fn apply_scalar_policy(p: ScalarRead) -> (r: DynValue)
    ensures
        r == scalar_read_value(p),
{
    match p {
        ScalarRead::Bool(Some(b)) => DynValue::Bool(b),
        ScalarRead::Bool(None) => DynValue::Other,
        ScalarRead::Int(Some(i)) => DynValue::Int(i),
        ScalarRead::Int(None) => DynValue::Other,
        ScalarRead::Float(Some(bits)) => DynValue::Float(bits),
        ScalarRead::Float(None) => DynValue::Other,
        ScalarRead::Text(Some(s)) => DynValue::Text(s),
        ScalarRead::Text(None) => DynValue::Other,
    }
}

/// The per-slot half of the degradation policy, shared by array slots and
/// property values: an extracted value carries over, an unreadable one
/// degrades to `Null` in place, so the rest of the structure survives.
pub open spec fn value_or_null(read: Option<DynValue>) -> DynValue {
    match read {
        Some(d) => d,
        None => DynValue::Null,
    }
}

/// Apply [`value_or_null`] to one slot or property-value read.
fn read_or_null(read: Option<DynValue>) -> (r: DynValue)
    ensures
        r == value_or_null(read),
{
    match read {
        Some(d) => d,
        None => DynValue::Null,
    }
}

/// The per-property half of the degradation policy: a property whose key the
/// engine could not hand over is skipped (no entry); one with a key keeps it,
/// with its value read degraded by [`value_or_null`].
pub open spec fn property_entry_value(key: Option<String>, read: Option<DynValue>) -> Option<
    (String, DynValue),
> {
    match key {
        Some(k) => Some((k, value_or_null(read))),
        None => None,
    }
}

/// Apply [`property_entry_value`] to one enumerated property.
fn property_entry(key: Option<String>, read: Option<DynValue>) -> (r: Option<(String, DynValue)>)
    ensures
        r == property_entry_value(key, read),
{
    match key {
        Some(k) => Some((k, read_or_null(read))),
        None => None,
    }
}

/// Read one engine value into the dynamic model, following at most `depth`
/// container levels. Deeper structure degrades to `Other`; everything read
/// behind the trusted accessors is decided by the policy functions above:
/// scalars by [`scalar_read_value`], array slots by [`value_or_null`]
/// (keeping the length), properties by [`property_entry_value`] (an
/// unreadable key skips the property, an unreadable value keeps the key with
/// `Null`).
fn extract_value<'js>(v: &rquickjs::Value<'js>, depth: u32) -> (r: DynValue)
    ensures
        dyn_depth_le(r@, depth as nat),
    decreases depth,
{
    match val_kind(v) {
        ValueKind::Undefined => DynValue::Undefined,
        ValueKind::Null => DynValue::Null,
        ValueKind::Bool => apply_scalar_policy(ScalarRead::Bool(val_as_bool(v))),
        ValueKind::Int => apply_scalar_policy(ScalarRead::Int(val_as_int(v))),
        ValueKind::Float => apply_scalar_policy(ScalarRead::Float(val_as_float_bits(v))),
        ValueKind::Text => apply_scalar_policy(ScalarRead::Text(val_as_text(v))),
        ValueKind::Array => {
            if depth == 0 {
                return DynValue::Other;
            }
            match val_array_len(v) {
                None => DynValue::Other,
                Some(n) => {
                    let mut items: Vec<DynValue> = Vec::new();
                    let mut i: usize = 0;
                    while i < n
                        invariant
                            1 <= depth,
                            items@.len() == i,
                            forall|j: int|
                                0 <= j < i ==> dyn_depth_le(
                                    #[trigger] items@[j]@,
                                    (depth - 1) as nat,
                                ),
                        decreases n - i,
                    {
                        let read = match val_array_get(v, i) {
                            Some(item) => Some(extract_value(&item, depth - 1)),
                            None => None,
                        };
                        items.push(read_or_null(read));
                        i += 1;
                    }
                    proof {
                        lemma_dyn_views(items@);
                        assert forall|j: int| 0 <= j < items@.len() implies dyn_depth_le(
                            #[trigger] dyn_views(items@)[j],
                            (depth - 1) as nat,
                        ) by {
                            assert(dyn_views(items@)[j] == dyn_view(items@[j]));
                            assert(dyn_depth_le(items@[j]@, (depth - 1) as nat));
                        }
                        assert(dyn_depth_le(DynVal::Array(dyn_views(items@)), depth as nat));
                    }
                    DynValue::Array(items)
                },
            }
        },
        ValueKind::Object => {
            if depth == 0 {
                return DynValue::Other;
            }
            match val_object_keys(v) {
                None => DynValue::Other,
                Some(keys) => {
                    let mut props: Vec<(String, DynValue)> = Vec::new();
                    let mut i: usize = 0;
                    while i < keys.len()
                        invariant
                            1 <= depth,
                            forall|j: int|
                                0 <= j < props@.len() ==> dyn_depth_le(
                                    #[trigger] props@[j].1@,
                                    (depth - 1) as nat,
                                ),
                        decreases keys@.len() - i,
                    {
                        let entry = match &keys[i] {
                            Some(key) => {
                                let read = match obj_get_value(v, key.as_str()) {
                                    Some(val) => Some(extract_value(&val, depth - 1)),
                                    None => None,
                                };
                                property_entry(Some(key.clone()), read)
                            },
                            None => property_entry(None, None),
                        };
                        if let Some(p) = entry {
                            props.push(p);
                        }
                        i += 1;
                    }
                    proof {
                        lemma_dyn_prop_views(props@);
                        assert forall|j: int| 0 <= j < props@.len() implies dyn_depth_le(
                            #[trigger] dyn_prop_views(props@)[j].1,
                            (depth - 1) as nat,
                        ) by {
                            assert(dyn_prop_views(props@)[j] == (props@[j].0@, dyn_view(props@[j].1)));
                            assert(dyn_depth_le(props@[j].1@, (depth - 1) as nat));
                        }
                        assert(dyn_depth_le(DynVal::Object(dyn_prop_views(props@)), depth as nat));
                    }
                    DynValue::Object(props)
                },
            }
        },
        ValueKind::Other => DynValue::Other,
    }
}


/// One failure of the execution lifecycle, by stage. Each variant carries the
/// engine's own error text; a lookup failure also carries the binding name.
pub enum ExecError {
    EngineCreation(String),
    ContextCreation(String),
    ScriptExecution(String),
    BindingLookup(String, String),
}

/// How a failure of the first lifecycle stage introduces itself.
pub open spec fn engine_creation_prefix() -> Seq<char> {
    "creating the script engine failed: "@
}

/// How a failure of the second lifecycle stage introduces itself.
pub open spec fn context_creation_prefix() -> Seq<char> {
    "creating the script context failed: "@
}

/// How a failure of the third lifecycle stage introduces itself.
pub open spec fn script_execution_prefix() -> Seq<char> {
    "executing the script failed: "@
}

/// How a failure of the binding lookup introduces itself, up to the binding
/// name.
pub open spec fn binding_lookup_prefix() -> Seq<char> {
    "looking up the binding '"@
}

/// What stands between the binding name and the engine's detail in a lookup
/// failure message.
pub open spec fn binding_lookup_mid() -> Seq<char> {
    "' failed: "@
}

/// The failure text of a lifecycle error: the stage, then the engine's own
/// error text; for a lookup failure, the binding name in the middle.
pub open spec fn error_message_of(e: ExecError) -> Seq<char> {
    match e {
        ExecError::EngineCreation(d) => engine_creation_prefix() + d@,
        ExecError::ContextCreation(d) => context_creation_prefix() + d@,
        ExecError::ScriptExecution(d) => script_execution_prefix() + d@,
        ExecError::BindingLookup(n, d) => binding_lookup_prefix() + n@ + binding_lookup_mid()
            + d@,
    }
}

/// `m` begins with `p`.
pub open spec fn starts_with(m: Seq<char>, p: Seq<char>) -> bool {
    m.len() >= p.len() && m.subrange(0, p.len() as int) == p
}

/// `needle` occurs in `hay` at position `i`.
pub open spec fn substring_at(hay: Seq<char>, needle: Seq<char>, i: int) -> bool {
    0 <= i && i + needle.len() <= hay.len() && hay.subrange(i, i + needle.len()) == needle
}

/// `needle` occurs somewhere in `hay`.
pub open spec fn has_substring(hay: Seq<char>, needle: Seq<char>) -> bool {
    exists|i: int| substring_at(hay, needle, i)
}

/// A failure message names the stage that failed, and a lookup failure names
/// the binding that was looked up.
pub open spec fn failure_message_ok(m: Seq<char>, binding: Seq<char>) -> bool {
    ||| starts_with(m, engine_creation_prefix())
    ||| starts_with(m, context_creation_prefix())
    ||| starts_with(m, script_execution_prefix())
    ||| (starts_with(m, binding_lookup_prefix()) && has_substring(m, binding))
}

impl ExecError {
    /// The human-readable failure text of this error.
    pub fn message(self) -> (m: String)
        ensures
            m@ == error_message_of(self),
    {
        match self {
            ExecError::EngineCreation(d) => String::from_str(
                "creating the script engine failed: ",
            ).concat(d.as_str()),
            ExecError::ContextCreation(d) => String::from_str(
                "creating the script context failed: ",
            ).concat(d.as_str()),
            ExecError::ScriptExecution(d) => String::from_str(
                "executing the script failed: ",
            ).concat(d.as_str()),
            ExecError::BindingLookup(n, d) => String::from_str("looking up the binding '").concat(
                n.as_str(),
            ).concat("' failed: ").concat(d.as_str()),
        }
    }
}

/// Every lifecycle failure message is non-empty and names its stage; a lookup
/// failure names the binding it looked up.
pub proof fn lemma_error_message_named(e: ExecError, binding: Seq<char>)
    requires
        e matches ExecError::BindingLookup(n, _) ==> n@ == binding,
    ensures
        error_message_of(e).len() > 0,
        failure_message_ok(error_message_of(e), binding),
{
    reveal_strlit("creating the script engine failed: ");
    reveal_strlit("creating the script context failed: ");
    reveal_strlit("executing the script failed: ");
    reveal_strlit("looking up the binding '");
    reveal_strlit("' failed: ");
    let m = error_message_of(e);
    match e {
        ExecError::EngineCreation(d) => {
            assert(m.subrange(0, engine_creation_prefix().len() as int)
                =~= engine_creation_prefix());
        },
        ExecError::ContextCreation(d) => {
            assert(m.subrange(0, context_creation_prefix().len() as int)
                =~= context_creation_prefix());
        },
        ExecError::ScriptExecution(d) => {
            assert(m.subrange(0, script_execution_prefix().len() as int)
                =~= script_execution_prefix());
        },
        ExecError::BindingLookup(n, d) => {
            let p = binding_lookup_prefix();
            assert(m.subrange(0, p.len() as int) =~= p);
            assert(m.subrange(p.len() as int, (p.len() + n@.len()) as int) =~= n@);
            assert(substring_at(m, n@, p.len() as int));
        },
    }
}

/// The detail text of a lookup failure on a binding the global scope lacks.
pub open spec fn missing_binding_detail() -> Seq<char> {
    "the global scope has no such binding"@
}

/// Stage decision after creating the runtime: success goes on with the
/// runtime; an engine error becomes the engine-creation failure carrying the
/// engine's own text.
fn runtime_outcome(res: Result<rquickjs::Runtime, String>) -> (r: Result<
    rquickjs::Runtime,
    ExecError,
>)
    ensures
        res is Ok <==> r is Ok,
        res matches Err(d) ==> (r matches Err(e) && e == ExecError::EngineCreation(d)),
{
    match res {
        Ok(rt) => Ok(rt),
        Err(d) => Err(ExecError::EngineCreation(d)),
    }
}

/// Stage decision after creating the context: success goes on with the
/// context; an engine error becomes the context-creation failure carrying the
/// engine's own text.
fn context_outcome(res: Result<rquickjs::Context, String>) -> (r: Result<
    rquickjs::Context,
    ExecError,
>)
    ensures
        res is Ok <==> r is Ok,
        res matches Err(d) ==> (r matches Err(e) && e == ExecError::ContextCreation(d)),
{
    match res {
        Ok(c) => Ok(c),
        Err(d) => Err(ExecError::ContextCreation(d)),
    }
}

/// Stage decision after running the script: success goes on; an engine error
/// becomes the script-execution failure carrying the engine's own text.
fn eval_outcome(res: Result<(), String>) -> (r: Option<ExecError>)
    ensures
        r is None <==> res is Ok,
        res matches Err(d) ==> r == Some(ExecError::ScriptExecution(d)),
{
    match res {
        Ok(()) => None,
        Err(d) => Some(ExecError::ScriptExecution(d)),
    }
}

/// Stage decision after the existence check: only a binding the global scope
/// confirms goes on. An absent binding is a lookup failure naming the binding
/// with [`missing_binding_detail`]; an existence check the engine itself
/// fails is a lookup failure naming the binding with the engine's own text.
fn lookup_outcome(exists: Result<bool, String>, name: &str) -> (r: Option<ExecError>)
    ensures
        r is None <==> exists matches Ok(true),
        exists matches Ok(false) ==> (r matches Some(e) && e matches ExecError::BindingLookup(
            n,
            d,
        ) && n@ == name@ && d@ == missing_binding_detail()),
        exists matches Err(d0) ==> (r matches Some(e) && e matches ExecError::BindingLookup(n, d)
            && n@ == name@ && d == d0),
{
    match exists {
        Ok(true) => None,
        Ok(false) => Some(
            ExecError::BindingLookup(
                String::from_str(name),
                String::from_str("the global scope has no such binding"),
            ),
        ),
        Err(d) => Some(ExecError::BindingLookup(String::from_str(name), d)),
    }
}

/// Stage decision after reading the binding: a value the engine handed over
/// goes through unchanged; an engine error becomes a lookup failure naming
/// the binding with the engine's own text.
fn get_outcome(res: Result<DynValue, String>, name: &str) -> (r: Result<DynValue, ExecError>)
    ensures
        res matches Ok(v) ==> (r matches Ok(w) && w == v),
        res matches Err(d) ==> (r matches Err(e) && e matches ExecError::BindingLookup(n, dd)
            && n@ == name@ && dd == d),
{
    match res {
        Ok(v) => Ok(v),
        Err(d) => Err(ExecError::BindingLookup(String::from_str(name), d)),
    }
}

/// Run the lifecycle up to the resolved binding: create a fresh runtime, a
/// fresh context, execute the script, check that the global scope has the
/// binding and read it, stopping at the first failing stage. Each stage's
/// verdict is classified by the decision function beside it; a resolved value
/// nests within the bridge's depth limit.
pub fn resolve_binding(js_code: &str, binding_name: &str) -> (r: Result<DynValue, ExecError>)
    ensures
        r matches Ok(v) ==> dyn_depth_le(v@, MAX_DEPTH as nat),
        r matches Err(e) ==> (e matches ExecError::BindingLookup(n, _) ==> n@ == binding_name@),
{
    let rt = match runtime_outcome(rt_new()) {
        Ok(rt) => rt,
        Err(e) => {
            return Err(e);
        },
    };
    let ctx = match context_outcome(ctx_new(&rt)) {
        Ok(c) => c,
        Err(e) => {
            return Err(e);
        },
    };
    if let Some(e) = eval_outcome(ctx_eval(&ctx, js_code)) {
        return Err(e);
    }
    if let Some(e) = lookup_outcome(global_exists(&ctx, binding_name), binding_name) {
        return Err(e);
    }
    match get_outcome(global_get(&ctx, binding_name), binding_name) {
        Ok(v) => Ok(v),
        Err(e) => Err(e),
    }
}

/// Execute the script text in a fresh, isolated engine, resolve the named
/// global binding, and return its canonical value in a success envelope; on
/// any lifecycle failure, a failure envelope whose message names the failing
/// stage, and for a lookup failure the binding name.
pub fn execute_js_get_variable(js_code: String, variable_name: String) -> (r: Results<
    CanonValue,
>)
    ensures
        r.success ==> r.message@.len() == 0 && (r.data matches Some(v) && canon_val_wf(v@)
            && exists|dv: DynVal|
            dyn_depth_le(dv, MAX_DEPTH as nat) && v@ == #[trigger] canon_of(
                dv,
                MAX_DEPTH as nat,
            )),
        !r.success ==> r.data is None && r.message@.len() > 0 && failure_message_ok(
            r.message@,
            variable_name@,
        ) && exists|e: ExecError|
            r.message@ == #[trigger] error_message_of(e) && (e matches ExecError::BindingLookup(
                n,
                _,
            ) ==> n@ == variable_name@),
{
    match resolve_binding(js_code.as_str(), variable_name.as_str()) {
        Ok(dv) => {
            let c = to_canonical(&dv);
            proof {
                assert(dyn_depth_le(dv@, MAX_DEPTH as nat) && c@ == canon_of(
                    dv@,
                    MAX_DEPTH as nat,
                ));
            }
            Results::success(c)
        },
        Err(e) => {
            let ghost ge = e;
            proof {
                lemma_error_message_named(ge, variable_name@);
            }
            Results::failure(e.message())
        },
    }
}

} // verus!
