use vstd::prelude::*;
use crate::builtins::is_bind_of;
use crate::invoke::{args_from, arg_or_undefined, call_plan, construct_plan};
use crate::naming::bound_length;
use crate::object::Context;
use crate::value::{JsObject, JsResult, JsValue, Number};

verus! {

/// The length of a bound wrapper: a target length of `+∞` gives `+∞` and one
/// of `-∞` gives 0 whatever the number of bound arguments; a target without a
/// numeric length gives 0; an integer length `n` with `c` bound arguments
/// gives `max(n - c, 0)`.
pub proof fn law_bound_length(target_length: Option<JsValue>, c: nat)
    ensures
        bound_length(Some(JsValue::Number(Number::PositiveInfinity)), c) == Number::PositiveInfinity,
        bound_length(Some(JsValue::Number(Number::NegativeInfinity)), c) == Number::Integer(0),
        !(target_length matches Some(JsValue::Number(_))) ==> bound_length(target_length, c)
            == Number::Integer(0),
        target_length matches Some(JsValue::Number(Number::Integer(n))) ==> bound_length(
            target_length,
            c,
        ) == Number::Integer(
            if n - c > 0 {
                (n - c) as i64
            } else {
                0
            },
        ),
{
}

/// Calling the wrapper that `bind` made of `target` with receiver `this` and
/// `call_args` comes to calling `target` with the receiver given to `bind`
/// and its bound arguments followed by `call_args`; `this` is ignored.
pub proof fn law_bound_call(
    before: &Context,
    after: &Context,
    target: JsObject,
    bind_args: Seq<JsValue>,
    r: JsResult<JsValue>,
    this: JsValue,
    call_args: Seq<JsValue>,
)
    requires
        before.wf(),
        before.valid(target),
        is_bind_of(before, after, target, bind_args, r),
    ensures
        r matches Ok(JsValue::Object(b)) && call_plan(after, b, this, call_args) == call_plan(
            after,
            target,
            arg_or_undefined(bind_args, 0),
            args_from(bind_args, 1) + call_args,
        ),
{
}

/// Constructing the wrapper that `bind` made of `target` with `call_args`
/// comes to constructing `target` with the bound arguments followed by
/// `call_args`, and with `target` as `new.target`; the receiver given to
/// `bind` plays no part.
pub proof fn law_bound_construct(
    before: &Context,
    after: &Context,
    target: JsObject,
    bind_args: Seq<JsValue>,
    r: JsResult<JsValue>,
    call_args: Seq<JsValue>,
)
    requires
        before.wf(),
        before.valid(target),
        is_bind_of(before, after, target, bind_args, r),
    ensures
        r matches Ok(JsValue::Object(b)) && construct_plan(after, b, call_args, b) == construct_plan(
            after,
            target,
            args_from(bind_args, 1) + call_args,
            target,
        ),
{
}

} // verus!
