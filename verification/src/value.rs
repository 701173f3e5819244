//! The value contract: the tagged union of JS-shaped values and its native
//! conversions.

use vstd::prelude::*;

use crate::error::Error;

verus! {

/// A JS-shaped value.
///
/// A tagged union over null, booleans, 32-bit signed integers, 64-bit floats
/// (carried as their IEEE-754 bit pattern), strings, arrays, and ordered
/// string-keyed objects. Values are plain data: they can be built before an
/// engine exists and are translated to the engine's own representation only
/// at the call boundary.
#[derive(Debug)]
pub enum Value {
    /// The JS `null` value (engine-side `undefined` also reads back as this).
    Null,
    /// A JS boolean.
    Bool(bool),
    /// A JS 32-bit signed integer.
    Int(i32),
    /// A JS 64-bit float, carried as its IEEE-754 bit pattern.
    Float(u64),
    /// A JS string.
    Str(String),
    /// A JS array.
    Array(Vec<Value>),
    /// A JS object; key order is preserved as given.
    Object(Vec<(String, Value)>),
}

impl Value {
    /// The boolean a conversion to `bool` would yield, if the tag matches.
    pub open spec fn bool_of(self) -> Option<bool> {
        match self {
            Value::Bool(b) => Some(b),
            _ => None,
        }
    }

    /// The integer a conversion to `i32` would yield, if the tag matches.
    pub open spec fn int_of(self) -> Option<i32> {
        match self {
            Value::Int(i) => Some(i),
            _ => None,
        }
    }

    /// The float bit pattern a conversion would yield, if the tag matches.
    pub open spec fn float_bits_of(self) -> Option<u64> {
        match self {
            Value::Float(bits) => Some(bits),
            _ => None,
        }
    }

    /// The string a conversion to `String` would yield, if the tag matches.
    pub open spec fn string_of(self) -> Option<String> {
        match self {
            Value::Str(s) => Some(s),
            _ => None,
        }
    }

    /// Returns whether the value is `null`.
    pub fn is_null(&self) -> (r: bool)
        ensures
            r == (self matches Value::Null),
    {
        matches!(self, Value::Null)
    }

    /// Returns whether the value is a boolean.
    pub fn is_bool(&self) -> (r: bool)
        ensures
            r == (self matches Value::Bool(_)),
    {
        matches!(self, Value::Bool(_))
    }

    /// Returns whether the value is a 32-bit integer.
    pub fn is_int(&self) -> (r: bool)
        ensures
            r == (self matches Value::Int(_)),
    {
        matches!(self, Value::Int(_))
    }

    /// Returns whether the value is a float.
    pub fn is_float(&self) -> (r: bool)
        ensures
            r == (self matches Value::Float(_)),
    {
        matches!(self, Value::Float(_))
    }

    /// Returns whether the value is a string.
    pub fn is_string(&self) -> (r: bool)
        ensures
            r == (self matches Value::Str(_)),
    {
        matches!(self, Value::Str(_))
    }

    /// Converts the value into a native `bool`.
    ///
    /// Succeeds exactly when the tag is `Bool`; any other tag yields a
    /// `JsValueError`.
    pub fn into_bool(self) -> (r: Result<bool, Error>)
        ensures
            self.bool_of() matches Some(b) ==> r == Ok::<bool, Error>(b),
            self.bool_of() is None ==> (r matches Err(e) && e matches Error::JsValueError(_)),
    {
        match self {
            Value::Bool(b) => Ok(b),
            _ => Err(Error::JsValueError("value is not a bool".to_owned())),
        }
    }

    /// Converts the value into a native `i32`.
    ///
    /// Succeeds exactly when the tag is `Int`; any other tag yields a
    /// `JsValueError`.
    pub fn into_int(self) -> (r: Result<i32, Error>)
        ensures
            self.int_of() matches Some(i) ==> r == Ok::<i32, Error>(i),
            self.int_of() is None ==> (r matches Err(e) && e matches Error::JsValueError(_)),
    {
        match self {
            Value::Int(i) => Ok(i),
            _ => Err(Error::JsValueError("value is not an int".to_owned())),
        }
    }

    /// Converts the value into the bit pattern of a native 64-bit float.
    ///
    /// Succeeds exactly when the tag is `Float`; any other tag yields a
    /// `JsValueError`.
    pub fn into_float_bits(self) -> (r: Result<u64, Error>)
        ensures
            self.float_bits_of() matches Some(bits) ==> r == Ok::<u64, Error>(bits),
            self.float_bits_of() is None ==> (r matches Err(e) && e matches Error::JsValueError(_)),
    {
        match self {
            Value::Float(bits) => Ok(bits),
            _ => Err(Error::JsValueError("value is not a float".to_owned())),
        }
    }

    /// Converts the value into a native `String`.
    ///
    /// Succeeds exactly when the tag is `Str`; any other tag yields a
    /// `JsValueError`.
    pub fn into_string(self) -> (r: Result<String, Error>)
        ensures
            self.string_of() matches Some(s) ==> r == Ok::<String, Error>(s),
            self.string_of() is None ==> (r matches Err(e) && e matches Error::JsValueError(_)),
    {
        match self {
            Value::Str(s) => Ok(s),
            _ => Err(Error::JsValueError("value is not a string".to_owned())),
        }
    }
}

/// Law: a value built from a native primitive converts back to that same
/// primitive, unchanged, for every supported primitive type.
pub proof fn lemma_primitive_round_trip(b: bool, i: i32, bits: u64, s: String)
    ensures
        Value::Bool(b).bool_of() == Some(b),
        Value::Int(i).int_of() == Some(i),
        Value::Float(bits).float_bits_of() == Some(bits),
        Value::Str(s).string_of() == Some(s),
{
}

/// Law: a conversion to a native type fails exactly when the value's tag does
/// not match the requested type, for every pairwise mismatch.
pub proof fn lemma_tag_mismatch(v: Value)
    ensures
        !(v matches Value::Bool(_)) <==> v.bool_of() is None,
        !(v matches Value::Int(_)) <==> v.int_of() is None,
        !(v matches Value::Float(_)) <==> v.float_bits_of() is None,
        !(v matches Value::Str(_)) <==> v.string_of() is None,
{
}

} // verus!
