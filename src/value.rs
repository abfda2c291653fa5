use vstd::prelude::*;
use crate::text::{append_signed_decimal, signed_decimal};

verus! {

/// A number value. The library holds integral numbers, the two infinities and
/// NaN.
#[derive(Debug, Clone, Copy, PartialEq, Eq, Structural)]
pub enum Number {
    Integer(i64),
    PositiveInfinity,
    NegativeInfinity,
    NaN,
}

/// The result of the `ToIntegerOrInfinity` conversion.
#[derive(Debug, Clone, Copy, PartialEq, Eq, Structural)]
pub enum IntegerOrInfinity {
    PositiveInfinity,
    Integer(i64),
    NegativeInfinity,
}

/// `ToIntegerOrInfinity` of a number: NaN becomes zero.
pub open spec fn integer_or_infinity(n: Number) -> IntegerOrInfinity {
    match n {
        Number::Integer(i) => IntegerOrInfinity::Integer(i),
        Number::PositiveInfinity => IntegerOrInfinity::PositiveInfinity,
        Number::NegativeInfinity => IntegerOrInfinity::NegativeInfinity,
        Number::NaN => IntegerOrInfinity::Integer(0),
    }
}

impl Number {
    /// Converts the number with `ToIntegerOrInfinity`.
    pub fn to_integer_or_infinity(&self) -> (r: IntegerOrInfinity)
        ensures
            r == integer_or_infinity(*self),
    {
        match self {
            Number::Integer(i) => IntegerOrInfinity::Integer(*i),
            Number::PositiveInfinity => IntegerOrInfinity::PositiveInfinity,
            Number::NegativeInfinity => IntegerOrInfinity::NegativeInfinity,
            Number::NaN => IntegerOrInfinity::Integer(0),
        }
    }
}

/// The identity of the well-known symbol `Symbol.hasInstance`.
pub const HAS_INSTANCE_SYMBOL_ID: u64 = 0;

/// A symbol: an identity and an optional description.
#[derive(Debug, Clone, PartialEq)]
pub struct JsSymbol {
    pub id: u64,
    pub description: Option<String>,
}

/// A handle to an object of a [`crate::Context`]: its place in the heap.
#[derive(Debug, Clone, Copy, PartialEq, Eq, Structural)]
pub struct JsObject {
    pub index: usize,
}

/// A value of the language.
#[derive(Debug, Clone, PartialEq)]
pub enum JsValue {
    Undefined,
    Null,
    Boolean(bool),
    Number(Number),
    String(String),
    Symbol(JsSymbol),
    Object(JsObject),
}

/// A property key. Keys are canonical: an array index is always `Index`.
#[derive(Debug, Clone, PartialEq)]
pub enum PropertyKey {
    String(String),
    Index(u32),
    Symbol(JsSymbol),
}

/// A data property: its value and its attributes.
#[derive(Debug, Clone, PartialEq)]
pub struct PropertyDescriptor {
    pub value: JsValue,
    pub writable: bool,
    pub enumerable: bool,
    pub configurable: bool,
}

/// A failure thrown to the running program.
#[derive(Debug, Clone, PartialEq)]
pub enum JsError {
    TypeError(String),
}

pub type JsResult<T> = Result<T, JsError>;

/// What identifies a property key: its text, its index or its symbol.
pub ghost enum KeyView {
    String(Seq<char>),
    Index(u32),
    Symbol(u64),
}

/// The identity of a property key.
pub open spec fn key_view(k: PropertyKey) -> KeyView {
    match k {
        PropertyKey::String(s) => KeyView::String(s@),
        PropertyKey::Index(i) => KeyView::Index(i),
        PropertyKey::Symbol(s) => KeyView::Symbol(s.id),
    }
}

/// The key that is the text `name`.
pub open spec fn named(name: Seq<char>) -> KeyView {
    KeyView::String(name)
}

/// Whether the value is the string `text`.
pub open spec fn is_text(v: JsValue, text: Seq<char>) -> bool {
    v matches JsValue::String(s) && s@ == text
}

/// A property that cannot be written or enumerated and can be reconfigured:
/// the attributes of a function's `name` and `length`.
pub open spec fn is_fixed_attributes(d: PropertyDescriptor) -> bool {
    !d.writable && !d.enumerable && d.configurable
}

/// The display form of a value, as error messages show it.
pub open spec fn display(v: JsValue) -> Seq<char> {
    match v {
        JsValue::Undefined => "undefined"@,
        JsValue::Null => "null"@,
        JsValue::Boolean(b) => if b {
            "true"@
        } else {
            "false"@
        },
        JsValue::Number(n) => number_text(n),
        JsValue::String(s) => s@,
        JsValue::Symbol(sym) => match sym.description {
            Some(d) => "Symbol("@ + d@ + ")"@,
            None => "Symbol()"@,
        },
        JsValue::Object(_) => "[object]"@,
    }
}

/// The text of a number.
pub open spec fn number_text(n: Number) -> Seq<char> {
    match n {
        Number::Integer(i) => signed_decimal(i as int),
        Number::PositiveInfinity => "Infinity"@,
        Number::NegativeInfinity => "-Infinity"@,
        Number::NaN => "NaN"@,
    }
}

/// Appends `t` to `s`.
pub fn append_text(s: &mut String, t: &str)
    ensures
        final(s)@ == old(s)@ + t@,
{
    s.append(t);
}

/// Appends the text of a number to `s`.
pub fn append_number(s: &mut String, n: Number)
    ensures
        final(s)@ == old(s)@ + number_text(n),
{
    proof {
        reveal_strlit("Infinity");
        reveal_strlit("-Infinity");
        reveal_strlit("NaN");
    }
    match n {
        Number::Integer(i) => append_signed_decimal(s, i),
        Number::PositiveInfinity => s.append("Infinity"),
        Number::NegativeInfinity => s.append("-Infinity"),
        Number::NaN => s.append("NaN"),
    }
}

impl JsSymbol {
    /// A copy of the symbol.
    pub fn duplicate(&self) -> (r: JsSymbol)
        ensures
            r == *self,
    {
        let description = match &self.description {
            Some(d) => Some(d.clone()),
            None => None,
        };
        JsSymbol { id: self.id, description }
    }
}

impl JsValue {
    /// A copy of the value.
    pub fn duplicate(&self) -> (r: JsValue)
        ensures
            r == *self,
    {
        match self {
            JsValue::Undefined => JsValue::Undefined,
            JsValue::Null => JsValue::Null,
            JsValue::Boolean(b) => JsValue::Boolean(*b),
            JsValue::Number(n) => JsValue::Number(*n),
            JsValue::String(s) => JsValue::String(s.clone()),
            JsValue::Symbol(sym) => JsValue::Symbol(sym.duplicate()),
            JsValue::Object(o) => JsValue::Object(*o),
        }
    }

    /// Whether the value is `null` or `undefined`.
    pub fn is_null_or_undefined(&self) -> (r: bool)
        ensures
            r == (*self is Null || *self is Undefined),
    {
        matches!(self, JsValue::Null | JsValue::Undefined)
    }

    /// The display form of the value.
    pub fn display(&self) -> (r: String)
        ensures
            r@ == display(*self),
    {
        proof {
            reveal_strlit("undefined");
            reveal_strlit("null");
            reveal_strlit("true");
            reveal_strlit("false");
            reveal_strlit("Symbol(");
            reveal_strlit(")");
            reveal_strlit("Symbol()");
            reveal_strlit("[object]");
        }
        let mut s = String::new();
        match self {
            JsValue::Undefined => append_text(&mut s, "undefined"),
            JsValue::Null => append_text(&mut s, "null"),
            JsValue::Boolean(b) => if *b {
                append_text(&mut s, "true")
            } else {
                append_text(&mut s, "false")
            },
            JsValue::Number(n) => append_number(&mut s, *n),
            JsValue::String(t) => append_text(&mut s, t.as_str()),
            JsValue::Symbol(sym) => match &sym.description {
                Some(d) => {
                    append_text(&mut s, "Symbol(");
                    append_text(&mut s, d.as_str());
                    append_text(&mut s, ")");
                },
                None => append_text(&mut s, "Symbol()"),
            },
            JsValue::Object(_) => append_text(&mut s, "[object]"),
        }
        assert(s@ =~= display(*self));
        s
    }
}

/// Copies a list of values.
pub fn copy_values(values: &[JsValue]) -> (r: Vec<JsValue>)
    ensures
        r@ == values@,
{
    let mut r: Vec<JsValue> = Vec::new();
    let mut i: usize = 0;
    while i < values.len()
        invariant
            i <= values@.len(),
            r@ == values@.subrange(0, i as int),
        decreases values@.len() - i,
    {
        r.push(values[i].duplicate());
        i = i + 1;
        assert(r@ =~= values@.subrange(0, i as int));
    }
    assert(values@.subrange(0, values@.len() as int) =~= values@);
    r
}

} // verus!
