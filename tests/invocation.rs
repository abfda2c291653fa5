use boa_function::{
    make_builtin_fn, BuiltInFunctionObject, ClosureFunction, Context, Function, Invocation,
    JsError, JsObject, JsValue, NativeFunction, Number, Object, ObjectData, PropertyDescriptor,
    PropertyKey,
};

fn key(s: &str) -> PropertyKey {
    PropertyKey::String(s.to_string())
}

fn integer(n: i64) -> JsValue {
    JsValue::Number(Number::Integer(n))
}

fn text(s: &str) -> JsValue {
    JsValue::String(s.to_string())
}

/// A native routine named `name` of length `length`, installed on
/// `Object.prototype`.
fn native(ctx: &mut Context, id: u32, name: &str, length: usize) -> JsObject {
    let parent = ctx.object_prototype;
    make_builtin_fn(NativeFunction::Host(id), name, parent, length, ctx);
    match ctx.get_own_property(parent, &key(name)) {
        Some(PropertyDescriptor { value: JsValue::Object(o), .. }) => o,
        other => panic!("not installed: {:?}", other),
    }
}

/// A native routine without own properties.
fn bare_native(ctx: &mut Context, id: u32) -> JsObject {
    let prototype = Some(ctx.function_prototype);
    ctx.allocate(Object {
        prototype,
        properties: Vec::new(),
        data: ObjectData::Function(Function::Native { function: NativeFunction::Host(id), constructor: true }),
    })
}

fn fixed(value: JsValue) -> PropertyDescriptor {
    PropertyDescriptor { value, writable: false, enumerable: false, configurable: true }
}

fn bind(ctx: &mut Context, target: JsObject, args: Vec<JsValue>) -> JsObject {
    match BuiltInFunctionObject::bind(&JsValue::Object(target), &args, ctx) {
        Ok(JsValue::Object(b)) => b,
        other => panic!("bind failed: {:?}", other),
    }
}

fn expect_call(inv: Invocation, target: JsObject, this: JsValue, args: Vec<JsValue>) {
    match inv {
        Invocation::Call { target: t, this: r, args: a } => {
            assert_eq!(t, target);
            assert_eq!(r, this);
            assert_eq!(a, args);
        }
        Invocation::Construct { .. } => panic!("expected a call"),
    }
}

#[test]
fn builtin_length_is_declared_length() {
    let mut ctx = Context::new();
    let f = native(&mut ctx, 1, "f", 3);
    assert_eq!(ctx.get_own_property(f, &key("length")), Some(fixed(integer(3))));
    assert_eq!(ctx.get_own_property(f, &key("name")), Some(fixed(text("f"))));
    let installed = ctx.get_own_property(ctx.object_prototype, &key("f")).unwrap();
    assert!(installed.writable);
    assert!(!installed.enumerable);
    assert!(installed.configurable);
}

#[test]
fn builtin_length_zero() {
    let mut ctx = Context::new();
    let f = native(&mut ctx, 1, "g", 0);
    assert_eq!(ctx.get_own_property(f, &key("length")), Some(fixed(integer(0))));
}

#[test]
fn bind_length_five_less_two() {
    let mut ctx = Context::new();
    let f = native(&mut ctx, 1, "f", 5);
    let b = bind(&mut ctx, f, vec![JsValue::Null, integer(1), integer(2)]);
    assert_eq!(ctx.get_own_property(b, &key("length")), Some(fixed(integer(3))));
}

#[test]
fn bind_length_never_below_zero() {
    let mut ctx = Context::new();
    let f = native(&mut ctx, 1, "f", 1);
    let b = bind(&mut ctx, f, vec![JsValue::Null, integer(1), integer(2), integer(3)]);
    assert_eq!(ctx.get_own_property(b, &key("length")), Some(fixed(integer(0))));
}

#[test]
fn bind_length_positive_infinity() {
    let mut ctx = Context::new();
    let f = bare_native(&mut ctx, 1);
    ctx.define_property(f, key("length"), fixed(JsValue::Number(Number::PositiveInfinity)));
    let b = bind(&mut ctx, f, vec![JsValue::Null, integer(1), integer(2), integer(3)]);
    assert_eq!(
        ctx.get_own_property(b, &key("length")),
        Some(fixed(JsValue::Number(Number::PositiveInfinity)))
    );
}

#[test]
fn bind_length_negative_infinity() {
    let mut ctx = Context::new();
    let f = bare_native(&mut ctx, 1);
    ctx.define_property(f, key("length"), fixed(JsValue::Number(Number::NegativeInfinity)));
    let b = bind(&mut ctx, f, vec![JsValue::Null]);
    assert_eq!(ctx.get_own_property(b, &key("length")), Some(fixed(integer(0))));
}

#[test]
fn bind_length_not_a_number() {
    let mut ctx = Context::new();
    let f = bare_native(&mut ctx, 1);
    ctx.define_property(f, key("length"), fixed(text("7")));
    let b = bind(&mut ctx, f, vec![]);
    assert_eq!(ctx.get_own_property(b, &key("length")), Some(fixed(integer(0))));
}

#[test]
fn bind_length_without_own_length() {
    let mut ctx = Context::new();
    let f = bare_native(&mut ctx, 1);
    let b = bind(&mut ctx, f, vec![]);
    assert_eq!(ctx.get_own_property(b, &key("length")), Some(fixed(integer(0))));
}

#[test]
fn bind_length_nan_counts_as_zero() {
    let mut ctx = Context::new();
    let f = bare_native(&mut ctx, 1);
    ctx.define_property(f, key("length"), fixed(JsValue::Number(Number::NaN)));
    let b = bind(&mut ctx, f, vec![]);
    assert_eq!(ctx.get_own_property(b, &key("length")), Some(fixed(integer(0))));
}

#[test]
fn bind_name_of_named_target() {
    let mut ctx = Context::new();
    let f = native(&mut ctx, 1, "f", 0);
    let b = bind(&mut ctx, f, vec![]);
    assert_eq!(ctx.get_own_property(b, &key("name")), Some(fixed(text("bound f"))));
}

#[test]
fn bind_name_of_unnamed_target() {
    let mut ctx = Context::new();
    let f = bare_native(&mut ctx, 1);
    ctx.define_property(f, key("name"), fixed(integer(4)));
    let b = bind(&mut ctx, f, vec![]);
    assert_eq!(ctx.get_own_property(b, &key("name")), Some(fixed(text("bound "))));
}

#[test]
fn bind_name_inherited_from_prototype() {
    let mut ctx = Context::new();
    let f = bare_native(&mut ctx, 1);
    let fp = ctx.function_prototype;
    ctx.define_property(fp, key("name"), fixed(text("proto")));
    let b = bind(&mut ctx, f, vec![]);
    assert_eq!(ctx.get_own_property(b, &key("name")), Some(fixed(text("bound proto"))));
}

#[test]
fn bind_twice_names_and_lengths() {
    let mut ctx = Context::new();
    let f = native(&mut ctx, 1, "f", 4);
    let b = bind(&mut ctx, f, vec![JsValue::Null, integer(1)]);
    let bb = bind(&mut ctx, b, vec![JsValue::Null, integer(2)]);
    assert_eq!(ctx.get_own_property(bb, &key("name")), Some(fixed(text("bound bound f"))));
    assert_eq!(ctx.get_own_property(bb, &key("length")), Some(fixed(integer(2))));
}

#[test]
fn bound_wrapper_call_forwards() {
    let mut ctx = Context::new();
    let f = native(&mut ctx, 1, "f", 4);
    let b = bind(&mut ctx, f, vec![text("thisArg"), text("a"), text("b")]);
    let inv = BuiltInFunctionObject::call(
        &JsValue::Object(b),
        &[text("other"), text("c"), text("d")],
        &ctx,
    )
    .unwrap();
    expect_call(inv, f, text("thisArg"), vec![text("a"), text("b"), text("c"), text("d")]);
}

#[test]
fn bound_wrapper_of_bound_wrapper_call_forwards() {
    let mut ctx = Context::new();
    let f = native(&mut ctx, 1, "f", 4);
    let b = bind(&mut ctx, f, vec![text("inner"), text("a")]);
    let bb = bind(&mut ctx, b, vec![text("outer"), text("b")]);
    let inv = ctx.prepare_call(bb, JsValue::Undefined, vec![text("c")]);
    expect_call(inv, f, text("inner"), vec![text("a"), text("b"), text("c")]);
}

#[test]
fn bound_wrapper_construct_ignores_receiver() {
    let mut ctx = Context::new();
    let f = native(&mut ctx, 1, "f", 4);
    let b = bind(&mut ctx, f, vec![text("thisArg"), text("a"), text("b")]);
    match ctx.prepare_construct(b, vec![text("c"), text("d")], b) {
        Invocation::Construct { target, args, new_target } => {
            assert_eq!(target, f);
            assert_eq!(args, vec![text("a"), text("b"), text("c"), text("d")]);
            assert_eq!(new_target, f);
        }
        Invocation::Call { .. } => panic!("expected a construction"),
    }
}

#[test]
fn bound_wrapper_keeps_constructor_flag() {
    let mut ctx = Context::new();
    let f = bare_native(&mut ctx, 1);
    let g = native(&mut ctx, 2, "g", 0);
    let bf = bind(&mut ctx, f, vec![]);
    let bg = bind(&mut ctx, g, vec![]);
    assert!(ctx.is_constructor(bf));
    assert!(!ctx.is_constructor(bg));
}

#[test]
fn apply_with_null_calls_without_arguments() {
    let mut ctx = Context::new();
    let f = native(&mut ctx, 1, "f", 0);
    let inv = BuiltInFunctionObject::apply(&JsValue::Object(f), &[text("recv"), JsValue::Null], &ctx).unwrap();
    expect_call(inv, f, text("recv"), vec![]);
}

#[test]
fn apply_with_undefined_calls_without_arguments() {
    let mut ctx = Context::new();
    let f = native(&mut ctx, 1, "f", 0);
    let inv = BuiltInFunctionObject::apply(&JsValue::Object(f), &[text("recv"), JsValue::Undefined], &ctx)
        .unwrap();
    expect_call(inv, f, text("recv"), vec![]);
    let inv = BuiltInFunctionObject::apply(&JsValue::Object(f), &[text("recv")], &ctx).unwrap();
    expect_call(inv, f, text("recv"), vec![]);
}

#[test]
fn apply_with_array_spreads_elements() {
    let mut ctx = Context::new();
    let f = native(&mut ctx, 1, "f", 0);
    let arr = ctx.create_array(vec![integer(1), integer(2)]);
    let inv = BuiltInFunctionObject::apply(
        &JsValue::Object(f),
        &[text("recv"), JsValue::Object(arr)],
        &ctx,
    )
    .unwrap();
    expect_call(inv, f, text("recv"), vec![integer(1), integer(2)]);
}

#[test]
fn apply_with_array_like_object() {
    let mut ctx = Context::new();
    let f = native(&mut ctx, 1, "f", 0);
    let proto = Some(ctx.object_prototype);
    let o = ctx.allocate(Object { prototype: proto, properties: Vec::new(), data: ObjectData::Ordinary });
    let plain = |v: JsValue| PropertyDescriptor { value: v, writable: true, enumerable: true, configurable: true };
    ctx.define_property(o, key("length"), plain(integer(3)));
    ctx.define_property(o, PropertyKey::Index(0), plain(text("x")));
    ctx.define_property(o, PropertyKey::Index(2), plain(text("z")));
    let inv = BuiltInFunctionObject::apply(&JsValue::Object(f), &[JsValue::Null, JsValue::Object(o)], &ctx)
        .unwrap();
    expect_call(inv, f, JsValue::Null, vec![text("x"), JsValue::Undefined, text("z")]);
}

#[test]
fn apply_with_primitive_fails() {
    let mut ctx = Context::new();
    let f = native(&mut ctx, 1, "f", 0);
    let r = BuiltInFunctionObject::apply(&JsValue::Object(f), &[JsValue::Null, integer(3)], &ctx);
    assert_eq!(
        r.err(),
        Some(JsError::TypeError("CreateListFromArrayLike called on non-object".to_string()))
    );
}

#[test]
fn call_passes_receiver_and_arguments() {
    let mut ctx = Context::new();
    let f = native(&mut ctx, 1, "f", 2);
    let inv = BuiltInFunctionObject::call(&JsValue::Object(f), &[text("recv"), integer(1), integer(2)], &ctx)
        .unwrap();
    expect_call(inv, f, text("recv"), vec![integer(1), integer(2)]);
}

#[test]
fn call_without_arguments_uses_undefined() {
    let mut ctx = Context::new();
    let f = native(&mut ctx, 1, "f", 2);
    let inv = BuiltInFunctionObject::call(&JsValue::Object(f), &[], &ctx).unwrap();
    expect_call(inv, f, JsValue::Undefined, vec![]);
}

#[test]
fn call_on_non_callable_fails() {
    let ctx = Context::new();
    let r = BuiltInFunctionObject::call(&integer(5), &[], &ctx);
    assert_eq!(r.err(), Some(JsError::TypeError("5 is not a function".to_string())));
    let r = BuiltInFunctionObject::call(&JsValue::Object(ctx.object_prototype), &[], &ctx);
    assert_eq!(r.err(), Some(JsError::TypeError("[object] is not a function".to_string())));
}

#[test]
fn apply_on_non_callable_fails() {
    let ctx = Context::new();
    let r = BuiltInFunctionObject::apply(&JsValue::Undefined, &[], &ctx);
    assert_eq!(r.err(), Some(JsError::TypeError("undefined is not a function".to_string())));
    let r = BuiltInFunctionObject::apply(&text("s"), &[], &ctx);
    assert_eq!(r.err(), Some(JsError::TypeError("s is not a function".to_string())));
}

#[test]
fn bind_on_non_callable_fails() {
    let mut ctx = Context::new();
    let before = ctx.objects.len();
    let r = BuiltInFunctionObject::bind(&JsValue::Null, &[], &mut ctx);
    assert_eq!(r.err(), Some(JsError::TypeError("null is not a function".to_string())));
    let r = BuiltInFunctionObject::bind(&integer(1), &[text("x")], &mut ctx);
    assert_eq!(r.err(), Some(JsError::TypeError("1 is not a function".to_string())));
    let plain = JsValue::Object(ctx.object_prototype);
    let r = BuiltInFunctionObject::bind(&plain, &[], &mut ctx);
    assert_eq!(r.err(), Some(JsError::TypeError("[object] is not a function".to_string())));
    assert_eq!(ctx.objects.len(), before);
}

#[test]
fn closure_state_is_shared_between_handles() {
    let mut ctx = Context::new();
    let prototype = Some(ctx.function_prototype);
    let o = ctx.allocate(Object {
        prototype,
        properties: Vec::new(),
        data: ObjectData::Function(Function::closure(ClosureFunction { id: 7 }, false, vec![0])),
    });
    let first = ctx.captures_of(o).unwrap();
    let second = ctx.captures_of(o).unwrap();
    for _ in 0..2 {
        let mut slots = first.as_mut_any().unwrap();
        let mut v = slots.slots();
        v[0] += 1;
        slots.set_slots(v);
    }
    assert_eq!(second.as_any().unwrap().slots(), vec![2]);
    let third = second.share();
    {
        let mut slots = third.as_mut_any().unwrap();
        slots.set_slots(vec![10, 20]);
    }
    assert_eq!(first.as_any().unwrap().slots(), vec![10, 20]);
}

#[test]
fn nested_mutable_borrow_fails() {
    let f = Function::closure(ClosureFunction { id: 1 }, false, vec![5]);
    let captures = match &f {
        Function::Closure { captures, .. } => captures.share(),
        _ => panic!("expected a closure"),
    };
    let other = captures.share();
    {
        let _held = captures.as_mut_any().unwrap();
        assert!(other.as_mut_any().is_err());
        assert!(other.as_any().is_err());
        assert!(captures.as_mut_any().is_err());
    }
    {
        let _read = captures.as_any().unwrap();
        assert!(other.as_any().is_ok());
        assert!(other.as_mut_any().is_err());
    }
    assert!(other.as_mut_any().is_ok());
}

#[test]
fn captures_of_non_closure_is_none() {
    let mut ctx = Context::new();
    let f = native(&mut ctx, 1, "f", 0);
    assert!(ctx.captures_of(f).is_none());
}
