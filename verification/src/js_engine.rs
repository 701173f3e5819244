//! The engine contract bound to the QuickJS runtime.
//!
//! Every call into the `quick-js` crate goes through one of the trusted
//! wrappers in this module; everything around them is verified.

use vstd::prelude::*;

use crate::error::Error;
use crate::value::Value;

verus! {

#[verifier::external_type_specification]
#[verifier::external_body]
pub struct ExContext(quick_js::Context);

#[verifier::external_type_specification]
#[verifier::external_body]
pub struct ExContextError(quick_js::ContextError);

#[verifier::external_type_specification]
#[verifier::external_body]
pub struct ExExecutionError(quick_js::ExecutionError);

#[verifier::external_type_specification]
#[verifier::external_body]
pub struct ExJsValue(quick_js::JsValue);

/// Relies on `quick_js::Context::new`: constructs a fresh, empty JS context,
/// or reports why the runtime could not be set up.
#[verifier::external_body]
fn context_new() -> (r: Result<quick_js::Context, quick_js::ContextError>) {
    quick_js::Context::new()
}

/// Relies on `quick_js::Context::eval`: runs source text in the context's
/// global scope (definitions persist there) and returns the last expression's
/// value, or the script-level failure.
#[verifier::external_body]
fn context_eval(ctx: &quick_js::Context, code: &str) -> (r: Result<
    quick_js::JsValue,
    quick_js::ExecutionError,
>) {
    ctx.eval(code)
}

/// Relies on `quick_js::Context::call_function`: looks up a global function by
/// name and invokes it with the given arguments in order, returning its result
/// or the script-level failure (an undefined name included).
#[verifier::external_body]
fn context_call(ctx: &quick_js::Context, name: &str, args: Vec<quick_js::JsValue>) -> (r: Result<
    quick_js::JsValue,
    quick_js::ExecutionError,
>) {
    ctx.call_function(name, args)
}

/// Relies on `quick_js::JsValue`: builds the engine-side value whose shape
/// mirrors the given `Value`, variant for variant. Float-typed source text is
/// the one gap: this crate carries floats only as opaque bit patterns, so a
/// `Value::Float` sent towards the engine becomes JS `null`.
#[verifier::external_body]
fn value_to_js(v: Value) -> (r: quick_js::JsValue) {
    match v {
        Value::Null => quick_js::JsValue::Null,
        Value::Bool(b) => quick_js::JsValue::Bool(b),
        Value::Int(i) => quick_js::JsValue::Int(i),
        Value::Float(_) => quick_js::JsValue::Null,
        Value::Str(s) => quick_js::JsValue::String(s),
        Value::Array(items) => quick_js::JsValue::Array(
            items.into_iter().map(value_to_js).collect(),
        ),
        Value::Object(pairs) => quick_js::JsValue::Object(
            pairs.into_iter().map(|(k, v)| (k, value_to_js(v))).collect(),
        ),
    }
}

/// Relies on `quick_js::JsValue`: reads an engine-side value back, variant for
/// variant; `undefined` and engine-only shapes come back as `Value::Null`.
#[verifier::external_body]
fn value_from_js(v: quick_js::JsValue) -> (r: Value) {
    match v {
        quick_js::JsValue::Null => Value::Null,
        quick_js::JsValue::Bool(b) => Value::Bool(b),
        quick_js::JsValue::Int(i) => Value::Int(i),
        quick_js::JsValue::Float(f) => Value::Float(f.to_bits()),
        quick_js::JsValue::String(s) => Value::Str(s),
        quick_js::JsValue::Array(items) => Value::Array(
            items.into_iter().map(value_from_js).collect(),
        ),
        quick_js::JsValue::Object(pairs) => Value::Object(
            pairs.into_iter().map(|(k, v)| (k, value_from_js(v))).collect(),
        ),
        _ => Value::Null,
    }
}

/// Relies on the `Display` impl of `quick_js::ContextError` for the
/// diagnostic text of a failed context construction.
#[verifier::external_body]
fn context_error_message(e: &quick_js::ContextError) -> (r: String) {
    format!("{}", e)
}

/// Relies on the `Display` impl of `quick_js::ExecutionError` for the
/// diagnostic text of a script-level failure.
#[verifier::external_body]
fn execution_error_message(e: &quick_js::ExecutionError) -> (r: String) {
    format!("{}", e)
}

/// One running QuickJS instance.
///
/// It owns the runtime's whole state: the global scope, every definition an
/// evaluation left there, and every value it ever produced. Exactly one is
/// meant to exist per concurrency unit.
pub struct Engine {
    ctx: quick_js::Context,
}

impl Engine {
    /// Constructs a fresh, empty engine instance.
    ///
    /// No bootstrap source is evaluated by this call. Fails with a
    /// `JsInitError` when the underlying runtime cannot be set up.
    pub fn new() -> (r: Result<Engine, Error>)
        ensures
            r matches Err(e) ==> e matches Error::JsInitError(_),
    {
        match context_new() {
            Ok(ctx) => Ok(Engine { ctx }),
            Err(e) => Err(Error::JsInitError(context_error_message(&e))),
        }
    }

    /// Evaluates arbitrary source text in the instance's global scope and
    /// returns the last expression's value.
    ///
    /// Definitions made by the source persist for later calls. Fails with a
    /// `JsExecError` when the script could not be parsed or raised.
    pub fn eval(&self, code: &str) -> (r: Result<Value, Error>)
        ensures
            r matches Err(e) ==> e matches Error::JsExecError(_),
    {
        match context_eval(&self.ctx, code) {
            Ok(v) => Ok(value_from_js(v)),
            Err(e) => Err(Error::JsExecError(execution_error_message(&e))),
        }
    }

    /// Invokes a previously defined global function by name, positionally,
    /// consuming the argument sequence in order.
    ///
    /// Fails with a `JsExecError` when the name is undefined or the
    /// invocation raised inside the script. Float-shaped arguments reach the
    /// script as JS `null`: this crate carries floats only as bit patterns.
    pub fn call_function(&self, name: &str, args: Vec<Value>) -> (r: Result<Value, Error>)
        ensures
            r matches Err(e) ==> e matches Error::JsExecError(_),
    {
        let mut args = args;
        let mut js_args: Vec<quick_js::JsValue> = Vec::new();
        while args.len() > 0
            decreases args.len(),
        {
            let v = args.remove(0);
            js_args.push(value_to_js(v));
        }
        match context_call(&self.ctx, name, js_args) {
            Ok(v) => Ok(value_from_js(v)),
            Err(e) => Err(Error::JsExecError(execution_error_message(&e))),
        }
    }

    /// The JS `null` value.
    pub fn null(&self) -> (r: Value)
        ensures
            r == Value::Null,
    {
        Value::Null
    }

    /// A JS value holding the given native `bool`.
    pub fn from_bool(&self, input: bool) -> (r: Value)
        ensures
            r == Value::Bool(input),
    {
        Value::Bool(input)
    }

    /// A JS value holding the given native `i32`.
    pub fn from_int(&self, input: i32) -> (r: Value)
        ensures
            r == Value::Int(input),
    {
        Value::Int(input)
    }

    /// A JS float value holding the 64-bit float with the given IEEE-754 bit
    /// pattern.
    pub fn from_float_bits(&self, input: u64) -> (r: Value)
        ensures
            r == Value::Float(input),
    {
        Value::Float(input)
    }

    /// A JS value holding the given native string.
    pub fn from_string(&self, input: String) -> (r: Value)
        ensures
            r == Value::Str(input),
    {
        Value::Str(input)
    }

    /// A JS array value holding the given elements, in order.
    pub fn from_array(&self, input: Vec<Value>) -> (r: Value)
        ensures
            r == Value::Array(input),
    {
        Value::Array(input)
    }

    /// A JS object value holding the given key/value pairs.
    ///
    /// Insertion order is preserved exactly as given: object key order is
    /// observable in JS semantics and must round-trip unchanged.
    pub fn from_object(&self, input: Vec<(String, Value)>) -> (r: Value)
        ensures
            r == Value::Object(input),
    {
        Value::Object(input)
    }
}

} // verus!
