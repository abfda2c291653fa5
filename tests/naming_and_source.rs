use std::rc::Rc;

use boa_function::source::trim;

use boa_function::{
    bound_function_length, function_name_of, make_builtin_fn, set_function_name, BoundFunction,
    BuiltInFunctionObject, ClosureFunction, ConstructorKind, Context, Declaration, Environment,
    FormalParameter, Function, IntegerOrInfinity, JsError, JsObject, JsSymbol, JsValue,
    NativeFunction, Number, Object, ObjectData, PropertyDescriptor, PropertyKey, StatementList,
    ThisMode,
};

fn key(s: &str) -> PropertyKey {
    PropertyKey::String(s.to_string())
}

fn text(s: &str) -> JsValue {
    JsValue::String(s.to_string())
}

fn number(n: i64) -> JsValue {
    JsValue::Number(Number::Integer(n))
}

fn fixed(value: JsValue) -> PropertyDescriptor {
    PropertyDescriptor { value, writable: false, enumerable: false, configurable: true }
}

fn object_with(ctx: &mut Context, data: ObjectData) -> JsObject {
    let prototype = Some(ctx.function_prototype);
    ctx.allocate(Object { prototype, properties: Vec::new(), data })
}

fn ident(s: &str) -> FormalParameter {
    FormalParameter { declaration: Declaration::Identifier { ident: s.to_string() }, is_rest_param: false }
}

fn ordinary(ctx: &mut Context, name: &str, params: Vec<FormalParameter>, body: &str) -> JsObject {
    let f = object_with(
        ctx,
        ObjectData::Function(Function::Ordinary {
            constructor: true,
            this_mode: ThisMode::Strict,
            body: Rc::new(StatementList { source: body.to_string() }),
            params,
            environment: Environment { index: 0 },
        }),
    );
    ctx.define_property(f, key("name"), fixed(text(name)));
    f
}

fn source_of(ctx: &Context, f: JsObject) -> String {
    match BuiltInFunctionObject::to_string(&JsValue::Object(f), &[], ctx) {
        Ok(JsValue::String(s)) => s,
        other => panic!("no source: {:?}", other),
    }
}

#[test]
fn native_source_text() {
    let mut ctx = Context::new();
    let parent = ctx.object_prototype;
    make_builtin_fn(NativeFunction::Host(3), "parseInt", parent, 2, &mut ctx);
    let f = match ctx.get_own_property(parent, &key("parseInt")).unwrap().value {
        JsValue::Object(o) => o,
        _ => panic!("not an object"),
    };
    assert_eq!(source_of(&ctx, f), "function parseInt() {\n  [native code]\n}");
}

#[test]
fn closure_source_text() {
    let mut ctx = Context::new();
    let f = object_with(&mut ctx, ObjectData::Function(Function::closure(ClosureFunction { id: 2 }, false, vec![])));
    ctx.define_property(f, key("name"), fixed(text("counter")));
    assert_eq!(source_of(&ctx, f), "function counter() {\n  [native code]\n}");
}

#[test]
fn unnamed_native_source_text() {
    let mut ctx = Context::new();
    let f = object_with(
        &mut ctx,
        ObjectData::Function(Function::Native { function: NativeFunction::Host(1), constructor: false }),
    );
    assert_eq!(source_of(&ctx, f), "function () {\n  [native code]\n}");
    BuiltInFunctionObject::init(&mut ctx);
    assert_eq!(source_of(&ctx, f), "function () {\n  [native code]\n}");
    let mut bare = Context::new();
    let proto = Some(bare.object_prototype);
    let g = bare.allocate(Object {
        prototype: proto,
        properties: Vec::new(),
        data: ObjectData::Function(Function::Native { function: NativeFunction::Host(1), constructor: false }),
    });
    assert_eq!(source_of(&bare, g), "function () {\n  [native code]\n}");
}

#[test]
fn numeric_name_source_text() {
    let mut ctx = Context::new();
    let f = object_with(
        &mut ctx,
        ObjectData::Function(Function::Native { function: NativeFunction::Host(1), constructor: false }),
    );
    ctx.define_property(f, key("name"), fixed(number(-42)));
    assert_eq!(source_of(&ctx, f), "function -42() {\n  [native code]\n}");
}

#[test]
fn single_line_source_is_trimmed() {
    let mut ctx = Context::new();
    let pattern = FormalParameter {
        declaration: Declaration::Pattern { idents: vec!["b".to_string(), "c".to_string()] },
        is_rest_param: false,
    };
    let f = ordinary(&mut ctx, "f", vec![ident("a"), pattern], "  return a;\n");
    assert_eq!(source_of(&ctx, f), "f(a,{b,c}) {return a;}");
}

#[test]
fn multi_line_source_keeps_lines() {
    let mut ctx = Context::new();
    let f = ordinary(&mut ctx, "g", vec![ident("x")], "let y = x;\nreturn y;\n");
    assert_eq!(source_of(&ctx, f), "g(x) {\nlet y = x;\nreturn y;\n}");
}

#[test]
fn to_string_of_non_function_fails() {
    let mut ctx = Context::new();
    let r = BuiltInFunctionObject::to_string(&number(1), &[], &ctx);
    assert_eq!(r.err(), Some(JsError::TypeError("Not a function".to_string())));
    let f = object_with(
        &mut ctx,
        ObjectData::Function(Function::Native { function: NativeFunction::Host(1), constructor: false }),
    );
    let mut b_ctx = ctx;
    let b = match BuiltInFunctionObject::bind(&JsValue::Object(f), &[], &mut b_ctx) {
        Ok(JsValue::Object(b)) => b,
        _ => panic!("bind failed"),
    };
    let r = BuiltInFunctionObject::to_string(&JsValue::Object(b), &[], &b_ctx);
    assert_eq!(r.err(), Some(JsError::TypeError("Not a function".to_string())));
}

#[test]
fn to_string_with_symbol_name_fails() {
    let mut ctx = Context::new();
    let f = object_with(
        &mut ctx,
        ObjectData::Function(Function::Native { function: NativeFunction::Host(1), constructor: false }),
    );
    ctx.define_property(f, key("name"), fixed(JsValue::Symbol(JsSymbol { id: 9, description: None })));
    let r = BuiltInFunctionObject::to_string(&JsValue::Object(f), &[], &ctx);
    assert_eq!(
        r.err(),
        Some(JsError::TypeError("Cannot convert a Symbol value to a string".to_string()))
    );
}

#[test]
fn function_names_from_keys() {
    let described = PropertyKey::Symbol(JsSymbol { id: 5, description: Some("desc".to_string()) });
    assert_eq!(function_name_of(&described, None), "[desc]");
    let bare = PropertyKey::Symbol(JsSymbol { id: 6, description: None });
    assert_eq!(function_name_of(&bare, None), "");
    assert_eq!(function_name_of(&PropertyKey::Index(1207), None), "1207");
    assert_eq!(function_name_of(&key("x"), Some("get")), "get x");
    assert_eq!(function_name_of(&bare, Some("bound")), "bound ");
}

#[test]
fn set_function_name_defines_name() {
    let mut ctx = Context::new();
    let f = object_with(
        &mut ctx,
        ObjectData::Function(Function::Native { function: NativeFunction::Host(1), constructor: false }),
    );
    set_function_name(f, &PropertyKey::Index(0), Some("set"), &mut ctx);
    assert_eq!(ctx.get_own_property(f, &key("name")), Some(fixed(text("set 0"))));
}

#[test]
fn bound_lengths_directly() {
    assert_eq!(bound_function_length(&Some(number(5)), 2), Number::Integer(3));
    assert_eq!(bound_function_length(&Some(number(-3)), 0), Number::Integer(0));
    assert_eq!(
        bound_function_length(&Some(JsValue::Number(Number::PositiveInfinity)), usize::MAX),
        Number::PositiveInfinity
    );
    assert_eq!(bound_function_length(&Some(number(i64::MAX)), usize::MAX), Number::Integer(0));
    assert_eq!(bound_function_length(&Some(number(i64::MAX)), 0), Number::Integer(i64::MAX));
    assert_eq!(bound_function_length(&None, 0), Number::Integer(0));
}

#[test]
fn integer_or_infinity_of_numbers() {
    assert_eq!(Number::NaN.to_integer_or_infinity(), IntegerOrInfinity::Integer(0));
    assert_eq!(Number::Integer(-4).to_integer_or_infinity(), IntegerOrInfinity::Integer(-4));
    assert_eq!(Number::NegativeInfinity.to_integer_or_infinity(), IntegerOrInfinity::NegativeInfinity);
}

#[test]
fn has_instance_follows_prototype_chain() {
    let mut ctx = Context::new();
    let f = ordinary(&mut ctx, "F", vec![], "");
    let proto_obj = object_with(&mut ctx, ObjectData::Ordinary);
    let plain = PropertyDescriptor { value: JsValue::Object(proto_obj), writable: true, enumerable: false, configurable: false };
    ctx.define_property(f, key("prototype"), plain);
    let instance = ctx.allocate(Object { prototype: Some(proto_obj), properties: Vec::new(), data: ObjectData::Ordinary });
    let deeper = ctx.allocate(Object { prototype: Some(instance), properties: Vec::new(), data: ObjectData::Ordinary });
    let stranger = ctx.allocate(Object { prototype: None, properties: Vec::new(), data: ObjectData::Ordinary });
    let check = |ctx: &Context, c: JsValue, v: JsValue| BuiltInFunctionObject::has_instance(&c, &[v], ctx);
    assert_eq!(check(&ctx, JsValue::Object(f), JsValue::Object(instance)), Ok(JsValue::Boolean(true)));
    assert_eq!(check(&ctx, JsValue::Object(f), JsValue::Object(deeper)), Ok(JsValue::Boolean(true)));
    assert_eq!(check(&ctx, JsValue::Object(f), JsValue::Object(stranger)), Ok(JsValue::Boolean(false)));
    assert_eq!(check(&ctx, JsValue::Object(f), number(1)), Ok(JsValue::Boolean(false)));
    assert_eq!(check(&ctx, number(1), JsValue::Object(instance)), Ok(JsValue::Boolean(false)));
    let b = match BuiltInFunctionObject::bind(&JsValue::Object(f), &[], &mut ctx) {
        Ok(JsValue::Object(b)) => b,
        _ => panic!("bind failed"),
    };
    assert_eq!(check(&ctx, JsValue::Object(b), JsValue::Object(deeper)), Ok(JsValue::Boolean(true)));
}

#[test]
fn has_instance_without_object_prototype_fails() {
    let mut ctx = Context::new();
    let f = ordinary(&mut ctx, "F", vec![], "");
    let v = ctx.allocate(Object { prototype: None, properties: Vec::new(), data: ObjectData::Ordinary });
    let r = BuiltInFunctionObject::has_instance(&JsValue::Object(f), &[JsValue::Object(v)], &ctx);
    assert_eq!(
        r.err(),
        Some(JsError::TypeError("function has non-object prototype in instanceof check".to_string()))
    );
}

#[test]
fn constructor_uses_new_target_prototype() {
    let mut ctx = Context::new();
    let proto_obj = object_with(&mut ctx, ObjectData::Ordinary);
    let nt = ordinary(&mut ctx, "C", vec![], "");
    let plain = PropertyDescriptor { value: JsValue::Object(proto_obj), writable: true, enumerable: false, configurable: false };
    ctx.define_property(nt, key("prototype"), plain);
    let made = match BuiltInFunctionObject::constructor(&JsValue::Object(nt), &[], &mut ctx) {
        Ok(JsValue::Object(o)) => o,
        _ => panic!("construction failed"),
    };
    assert_eq!(ctx.get_prototype_of(made), Some(proto_obj));
    assert!(ctx.is_constructor(made));
    let other = match BuiltInFunctionObject::constructor(&JsValue::Undefined, &[], &mut ctx) {
        Ok(JsValue::Object(o)) => o,
        _ => panic!("construction failed"),
    };
    assert_eq!(ctx.get_prototype_of(other), Some(ctx.function_prototype));
}

#[test]
fn prototype_routine_returns_undefined() {
    let ctx = Context::new();
    assert_eq!(BuiltInFunctionObject::prototype(&JsValue::Null, &[], &ctx), Ok(JsValue::Undefined));
}

#[test]
fn init_installs_function_constructor() {
    let mut ctx = Context::new();
    let c = match BuiltInFunctionObject::init(&mut ctx) {
        JsValue::Object(c) => c,
        _ => panic!("no constructor"),
    };
    let fp = ctx.function_prototype;
    assert_eq!(ctx.get_own_property(c, &key("name")), Some(fixed(text("Function"))));
    assert_eq!(ctx.get_own_property(c, &key("length")), Some(fixed(number(1))));
    assert_eq!(ctx.get_own_property(fp, &key("constructor")).unwrap().value, JsValue::Object(c));
    for (name, length) in [("apply", 1), ("bind", 1), ("call", 1), ("toString", 0)] {
        let m = match ctx.get_own_property(fp, &key(name)).unwrap().value {
            JsValue::Object(m) => m,
            _ => panic!("missing {}", name),
        };
        assert_eq!(ctx.get_own_property(m, &key("length")), Some(fixed(number(length))));
    }
    let has_instance = PropertyKey::Symbol(JsSymbol { id: 0, description: None });
    let h = match ctx.get_own_property(fp, &has_instance).unwrap().value {
        JsValue::Object(h) => h,
        _ => panic!("missing hasInstance"),
    };
    assert_eq!(ctx.get_own_property(h, &key("name")), Some(fixed(text("[Symbol.hasInstance]"))));
}

#[test]
fn parameters_take_arguments_and_rest() {
    let mut ctx = Context::new();
    let rest = FormalParameter { declaration: Declaration::Identifier { ident: "rest".to_string() }, is_rest_param: true };
    let params = vec![ident("a"), ident("b"), rest];
    let values = Function::add_arguments_to_environment(&params, &[number(1)], &mut ctx);
    assert_eq!(values[0], number(1));
    assert_eq!(values[1], JsValue::Undefined);
    let values = Function::add_arguments_to_environment(&params, &[number(1), number(2), number(3), number(4)], &mut ctx);
    match &values[2] {
        JsValue::Object(o) => match &ctx.objects[o.index].data {
            ObjectData::Array(v) => assert_eq!(v, &vec![number(3), number(4)]),
            _ => panic!("not an array"),
        },
        _ => panic!("not an object"),
    }
}

#[test]
fn this_modes_and_constructor_kinds() {
    assert!(ThisMode::Lexical.is_lexical());
    assert!(!ThisMode::Lexical.is_strict());
    assert!(ThisMode::Strict.is_strict());
    assert!(ThisMode::Global.is_global());
    assert!(!ThisMode::Global.is_lexical());
    assert!(ConstructorKind::Base.is_base());
    assert!(!ConstructorKind::Base.is_derived());
    assert!(ConstructorKind::Derived.is_derived());
}

#[test]
fn function_constructor_flags() {
    assert!(Function::Native { function: NativeFunction::Host(1), constructor: true }.is_constructor());
    assert!(!Function::closure(ClosureFunction { id: 1 }, false, vec![]).is_constructor());
}

#[test]
fn bound_function_parts() {
    let mut ctx = Context::new();
    let f = object_with(
        &mut ctx,
        ObjectData::Function(Function::Native { function: NativeFunction::Host(1), constructor: false }),
    );
    let b = BoundFunction::create(f, text("t"), vec![number(1)], &mut ctx).unwrap();
    match &ctx.objects[b.index].data {
        ObjectData::BoundFunction { function, constructor } => {
            assert_eq!(*function.target_function(), f);
            assert_eq!(function.this(), &text("t"));
            assert_eq!(function.args(), &[number(1)][..]);
            assert!(!constructor);
        }
        _ => panic!("not a bound function"),
    }
    assert_eq!(ctx.get_prototype_of(b), Some(ctx.function_prototype));
}

#[test]
fn trim_removes_unicode_white_space() {
    assert_eq!(trim("\u{3000} return 1;\u{a0}\n"), "return 1;");
    assert_eq!(trim(" \t\r\n"), "");
    assert_eq!(trim("a b"), "a b");
    assert_eq!(trim("\u{200b}x"), "\u{200b}x");
}
