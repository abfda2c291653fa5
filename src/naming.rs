use vstd::prelude::*;
use crate::object::{fixed, string_key, Context};
use crate::text::{append_decimal, decimal};
use crate::value::{
    append_text, integer_or_infinity, is_fixed_attributes, is_text, named,
    IntegerOrInfinity, JsObject, JsValue, KeyView, Number, PropertyKey,
};

verus! {

/// The length of a bound wrapper, from the value of its target's own `length`
/// (if it has one) and the number of bound arguments: `+∞` stays `+∞`, `-∞`
/// and anything that is not a number give 0, and an integer length loses one
/// for each bound argument, down to 0.
pub open spec fn bound_length(target_length: Option<JsValue>, arg_count: nat) -> Number {
    match target_length {
        Some(JsValue::Number(n)) => match integer_or_infinity(n) {
            IntegerOrInfinity::PositiveInfinity => Number::PositiveInfinity,
            IntegerOrInfinity::NegativeInfinity => Number::Integer(0),
            IntegerOrInfinity::Integer(i) => Number::Integer(
                if i - arg_count > 0 {
                    (i - arg_count) as i64
                } else {
                    0
                },
            ),
        },
        _ => Number::Integer(0),
    }
}

/// Computes the length of a bound wrapper.
pub fn bound_function_length(target_length: &Option<JsValue>, arg_count: usize) -> (r: Number)
    ensures
        r == bound_length(*target_length, arg_count as nat),
{
    match target_length {
        Some(JsValue::Number(n)) => match n.to_integer_or_infinity() {
            IntegerOrInfinity::PositiveInfinity => Number::PositiveInfinity,
            IntegerOrInfinity::NegativeInfinity => Number::Integer(0),
            IntegerOrInfinity::Integer(i) => {
                let d: i128 = (i as i128) - (arg_count as i128);
                if d > 0 {
                    Number::Integer(d as i64)
                } else {
                    Number::Integer(0)
                }
            },
        },
        _ => Number::Integer(0),
    }
}

/// The name that a property key gives a function: a symbol's description in
/// brackets (empty without one), a string as it is, an index in decimal.
pub open spec fn key_name(k: PropertyKey) -> Seq<char> {
    match k {
        PropertyKey::Symbol(s) => match s.description {
            Some(d) => "["@ + d@ + "]"@,
            None => Seq::empty(),
        },
        PropertyKey::String(s) => s@,
        PropertyKey::Index(i) => decimal(i as nat),
    }
}

/// The text of an optional prefix.
pub open spec fn prefix_view(prefix: Option<&str>) -> Option<Seq<char>> {
    match prefix {
        Some(p) => Some(p@),
        None => None,
    }
}

/// The name of a function named by `k`, after `prefix` and a space if there
/// is a prefix.
pub open spec fn function_name(k: PropertyKey, prefix: Option<Seq<char>>) -> Seq<char> {
    match prefix {
        Some(p) => p + " "@ + key_name(k),
        None => key_name(k),
    }
}

/// Computes the name of a function named by `name` with an optional prefix.
pub fn function_name_of(name: &PropertyKey, prefix: Option<&str>) -> (r: String)
    ensures
        r@ == function_name(*name, prefix_view(prefix)),
{
    proof {
        reveal_strlit(" ");
        reveal_strlit("[");
        reveal_strlit("]");
    }
    let mut s = String::new();
    match prefix {
        Some(p) => {
            append_text(&mut s, p);
            append_text(&mut s, " ");
        },
        None => {},
    }
    match name {
        PropertyKey::Symbol(sym) => match &sym.description {
            Some(d) => {
                append_text(&mut s, "[");
                append_text(&mut s, d.as_str());
                append_text(&mut s, "]");
            },
            None => {},
        },
        PropertyKey::String(t) => append_text(&mut s, t.as_str()),
        PropertyKey::Index(i) => append_decimal(&mut s, *i as u64),
    }
    assert(s@ =~= function_name(*name, prefix_view(prefix)));
    s
}

/// Abstract operation `SetFunctionName`: defines the `name` of `function`
/// from `name` and an optional prefix, not writable, not enumerable,
/// configurable.
pub fn set_function_name(
    function: JsObject,
    name: &PropertyKey,
    prefix: Option<&str>,
    context: &mut Context,
)
    requires
        old(context).wf(),
        old(context).valid(function),
    ensures
        final(context).wf(),
        final(context).objects.len() == old(context).objects.len(),
        final(context).object_prototype == old(context).object_prototype,
        final(context).function_prototype == old(context).function_prototype,
        forall|i: int|
            0 <= i < old(context).objects.len() && i != function.index ==> #[trigger] final(context).objects@[i] == old(context).objects@[i],
        final(context).objects@[function.index as int].prototype == old(context).objects@[function.index as int].prototype,
        final(context).objects@[function.index as int].data == old(context).objects@[function.index as int].data,
        final(context).own_property(function, named("name"@)) matches Some(d) && is_fixed_attributes(d)
            && is_text(d.value, function_name(*name, prefix_view(prefix))),
        forall|k: KeyView|
            k != named("name"@) ==> #[trigger] final(context).own_property(function, k) == old(context).own_property(function, k),
{
    let text = function_name_of(name, prefix);
    let key = string_key("name");
    let descriptor = fixed(JsValue::String(text));
    context.define_property(function, key, descriptor);
}

} // verus!
