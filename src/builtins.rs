use vstd::prelude::*;
use crate::function::{BoundFunction, Function, NativeFunction};
use crate::invoke::{
    args_from, arg_or_undefined, call_plan, get_from, get_or_undefined, is_call, Invocation,
};
use crate::naming::{bound_function_length, bound_length, set_function_name};
use crate::object::{fixed, is_constructor_data, string_key, Context, Object, ObjectData};
use crate::source::{native_source, ordinary_source, render_native, render_ordinary, trim, trimmed};
use crate::value::{
    append_number, append_text, display, is_fixed_attributes, is_text, named, number_text, JsError,
    JsObject, JsResult, JsSymbol, JsValue, KeyView, Number, PropertyDescriptor, PropertyKey,
    HAS_INSTANCE_SYMBOL_ID,
};

verus! {

/// The message of the failure to call a value that is not callable.
pub open spec fn not_a_function(v: JsValue) -> Seq<char> {
    display(v) + " is not a function"@
}

/// Whether `r` is a `TypeError` with the message `m`.
pub open spec fn is_type_error<T>(r: JsResult<T>, m: Seq<char>) -> bool {
    r matches Err(JsError::TypeError(s)) && s@ == m
}

/// Whether `o` is a bound wrapper of `target` with receiver `this`, stored
/// arguments `args`, and the constructor flag `constructor`.
pub open spec fn is_bound_wrapper(
    ctx: &Context,
    o: JsObject,
    target: JsObject,
    this: JsValue,
    args: Seq<JsValue>,
    constructor: bool,
) -> bool {
    &&& ctx.valid(o)
    &&& ctx.data(o) matches ObjectData::BoundFunction { function, constructor: c }
        && function.target_spec() == target && function.this_spec() == this && function.args_spec()
        == args && c == constructor
}

/// Whether `after` is `before` with one more object, at the end.
pub open spec fn grows_by_one(before: &Context, after: &Context) -> bool {
    &&& after.wf()
    &&& after.objects.len() == before.objects.len() + 1
    &&& after.object_prototype == before.object_prototype
    &&& after.function_prototype == before.function_prototype
    &&& forall|i: int| 0 <= i < before.objects.len() ==> #[trigger] after.objects@[i] == before.objects@[i]
}

/// The value of the own `length` of `t`, if it has one.
pub open spec fn own_length(ctx: &Context, t: JsObject) -> Option<JsValue> {
    match ctx.own_property(t, named("length"@)) {
        Some(d) => Some(d.value),
        None => None,
    }
}

/// The name of `t` as `bind` reads it: its `name` if that is a string, else
/// the empty string.
pub open spec fn target_name(ctx: &Context, t: JsObject) -> Seq<char> {
    match ctx.get_spec(t, named("name"@)) {
        JsValue::String(s) => s@,
        _ => Seq::empty(),
    }
}

/// The outcome that `bind` owes on a callable target `t`: a new bound wrapper
/// at the end of the heap, with its derived `length` and its `"bound "` name.
pub open spec fn is_bind_of(
    before: &Context,
    after: &Context,
    t: JsObject,
    args: Seq<JsValue>,
    r: JsResult<JsValue>,
) -> bool {
    let o = JsObject { index: before.objects.len() };
    &&& r matches Ok(v) && v == JsValue::Object(o)
    &&& grows_by_one(before, after)
    &&& is_bound_wrapper(
        after,
        o,
        t,
        arg_or_undefined(args, 0),
        args_from(args, 1),
        is_constructor_data(before.data(t)),
    )
    &&& after.objects@[o.index as int].prototype == before.objects@[t.index as int].prototype
    &&& after.own_property(o, named("length"@)) == Some(
        fixed(JsValue::Number(bound_length(own_length(before, t), args_from(args, 1).len()))),
    )
    &&& after.own_property(o, named("name"@)) matches Some(d) && is_fixed_attributes(d) && is_text(
        d.value,
        "bound "@ + target_name(before, t),
    )
}

/// The longest array-like list: one element for each `u32` index but the
/// last.
pub const MAX_ARRAY_LIKE_LENGTH: u32 = 4294967295;

/// The number of elements that an array-like with the `length` value `v`
/// has: an integer clamped to `0 ..= MAX_ARRAY_LIKE_LENGTH`, that maximum for
/// `+∞`, and 0 for anything else.
pub open spec fn array_like_length(v: JsValue) -> nat {
    match v {
        JsValue::Number(Number::Integer(n)) => if n <= 0 {
            0
        } else if n >= MAX_ARRAY_LIKE_LENGTH {
            MAX_ARRAY_LIKE_LENGTH as nat
        } else {
            n as nat
        },
        JsValue::Number(Number::PositiveInfinity) => MAX_ARRAY_LIKE_LENGTH as nat,
        _ => 0,
    }
}

/// `CreateListFromArrayLike`: the elements of an array, or of another
/// object the values of its indices below its `length`; nothing for a value
/// that is not an object.
pub open spec fn array_like_list(ctx: &Context, v: JsValue) -> Option<Seq<JsValue>> {
    match v {
        JsValue::Object(o) => if ctx.valid(o) {
            match ctx.data(o) {
                ObjectData::Array(elements) => Some(elements@),
                _ => Some(
                    Seq::new(
                        array_like_length(ctx.get_spec(o, named("length"@))),
                        |i: int| ctx.get_spec(o, KeyView::Index(i as u32)),
                    ),
                ),
            }
        } else {
            None
        },
        _ => None,
    }
}

/// The message of the failure to make a list of a value that is not an
/// object.
pub open spec fn not_an_object() -> Seq<char> {
    "CreateListFromArrayLike called on non-object"@
}

/// The length that an array-like with the `length` value `v` has.
fn array_like_length_of(v: &JsValue) -> (r: u32)
    ensures
        r as nat == array_like_length(*v),
{
    match v {
        JsValue::Number(Number::Integer(n)) => if *n <= 0 {
            0
        } else if *n >= MAX_ARRAY_LIKE_LENGTH as i64 {
            MAX_ARRAY_LIKE_LENGTH
        } else {
            *n as u32
        },
        JsValue::Number(Number::PositiveInfinity) => MAX_ARRAY_LIKE_LENGTH,
        _ => 0,
    }
}

/// `CreateListFromArrayLike ( obj )`.
pub fn create_list_from_array_like(v: &JsValue, context: &Context) -> (r: JsResult<Vec<JsValue>>)
    requires
        context.wf(),
    ensures
        array_like_list(context, *v) is None ==> is_type_error(r, not_an_object()),
        array_like_list(context, *v) matches Some(l) ==> r matches Ok(list) && list@ == l,
{
    let o = match v {
        JsValue::Object(o) => {
            if o.index < context.objects.len() {
                *o
            } else {
                return Err(JsError::TypeError("CreateListFromArrayLike called on non-object".to_string()));
            }
        },
        _ => {
            return Err(JsError::TypeError("CreateListFromArrayLike called on non-object".to_string()));
        },
    };
    if let ObjectData::Array(elements) = &context.objects[o.index].data {
        return Ok(crate::value::copy_values(elements.as_slice()));
    }
    let n = array_like_length_of(&context.get(o, &string_key("length")));
    let mut list: Vec<JsValue> = Vec::new();
    let mut i: u32 = 0;
    while i < n
        invariant
            context.wf(),
            context.valid(o),
            i <= n,
            list@ =~= Seq::new(i as nat, |j: int| context.get_spec(o, KeyView::Index(j as u32))),
        decreases n - i,
    {
        list.push(context.get(o, &PropertyKey::Index(i)));
        i = i + 1;
    }
    Ok(list)
}

/// The text that `toString` shows for the `name` value `v`: the empty
/// string for `null` and `undefined`, nothing where it cannot be converted.
pub open spec fn name_text(v: JsValue) -> Option<Seq<char>> {
    match v {
        JsValue::Undefined => Some(Seq::empty()),
        JsValue::Null => Some(Seq::empty()),
        JsValue::Boolean(b) => Some(
            if b {
                "true"@
            } else {
                "false"@
            },
        ),
        JsValue::Number(n) => Some(number_text(n)),
        JsValue::String(s) => Some(s@),
        _ => None,
    }
}

/// The message of the failure to convert `v` to a string.
pub open spec fn conversion_error(v: JsValue) -> Seq<char> {
    if v is Symbol {
        "Cannot convert a Symbol value to a string"@
    } else {
        "Cannot convert object to primitive value"@
    }
}

/// The source text of the callable `f` named `name`.
pub open spec fn function_source(f: &Function, name: Seq<char>) -> Seq<char> {
    match f {
        Function::Ordinary { params, body, .. } => ordinary_source(
            name,
            params@,
            body.source@,
            trimmed(body.source@),
        ),
        _ => native_source(name),
    }
}

/// The function (not a bound wrapper) that `v` is, if it is one.
pub open spec fn is_function_value(ctx: &Context, v: JsValue) -> bool {
    v matches JsValue::Object(o) && ctx.valid(o) && ctx.data(o) is Function
}

/// The message of `toString` on a value that is not a function.
pub open spec fn not_a_function_object() -> Seq<char> {
    "Not a function"@
}

/// The callable that the bound wrappers from `f` on finally call.
pub open spec fn unbound_target(ctx: &Context, f: JsObject) -> JsObject
    decreases f.index,
{
    if ctx.valid(f) {
        match ctx.data(f) {
            ObjectData::BoundFunction { function, .. } => if function.target_spec().index < f.index {
                unbound_target(ctx, function.target_spec())
            } else {
                f
            },
            _ => f,
        }
    } else {
        f
    }
}

/// Whether `p` is among the prototypes of `o`, looking at most `fuel` steps
/// up the chain.
pub open spec fn chain_has(ctx: &Context, o: JsObject, p: JsObject, fuel: nat) -> bool
    decreases fuel,
{
    if fuel == 0 || !ctx.valid(o) {
        false
    } else {
        match ctx.objects@[o.index as int].prototype {
            None => false,
            Some(q) => q == p || chain_has(ctx, q, p, (fuel - 1) as nat),
        }
    }
}

/// `OrdinaryHasInstance ( c, v )`: `Some(b)` for the answer `b`, `None` where
/// the `prototype` of the callable is not an object. A bound wrapper answers
/// for its target; a chain is followed for as many steps as the heap has
/// objects.
pub open spec fn has_instance_spec(ctx: &Context, c: JsValue, v: JsValue) -> Option<bool> {
    match ctx.callable(c) {
        None => Some(false),
        Some(f) => {
            let t = unbound_target(ctx, f);
            match v {
                JsValue::Object(o) => match ctx.get_spec(t, named("prototype"@)) {
                    JsValue::Object(p) => Some(chain_has(ctx, o, p, ctx.objects.len() as nat)),
                    _ => None,
                },
                _ => Some(false),
            }
        },
    }
}

/// The message of `[Symbol.hasInstance]` on a callable without an object
/// `prototype`.
pub open spec fn prototype_not_object() -> Seq<char> {
    "function has non-object prototype in instanceof check"@
}

/// Whether `after` is `before` with one more object, the native routine
/// `function`, named `name` and of length `length`, installed on `parent`
/// under `name`.
pub open spec fn is_builtin_of(
    before: &Context,
    after: &Context,
    function: NativeFunction,
    name: Seq<char>,
    parent: JsObject,
    length: int,
) -> bool {
    let o = JsObject { index: before.objects.len() };
    &&& after.wf()
    &&& after.objects.len() == before.objects.len() + 1
    &&& after.object_prototype == before.object_prototype
    &&& after.function_prototype == before.function_prototype
    &&& forall|i: int|
        0 <= i < before.objects.len() && i != parent.index ==> #[trigger] after.objects@[i] == before.objects@[i]
    &&& after.objects@[parent.index as int].data == before.objects@[parent.index as int].data
    &&& after.objects@[parent.index as int].prototype == before.objects@[parent.index as int].prototype
    &&& after.objects@[o.index as int].prototype == Some(before.function_prototype)
    &&& after.data(o) matches ObjectData::Function(Function::Native { function: f, constructor: c })
        && *f == function && !*c
    &&& after.own_property(o, named("length"@)) == Some(
        fixed(JsValue::Number(Number::Integer(length as i64))),
    )
    &&& after.own_property(o, named("name"@)) matches Some(d) && is_fixed_attributes(d) && is_text(
        d.value,
        name,
    )
    &&& after.own_property(parent, named(name)) == Some(
        PropertyDescriptor {
            value: JsValue::Object(o),
            writable: true,
            enumerable: false,
            configurable: true,
        },
    )
    &&& forall|k: KeyView|
        k != named(name) ==> #[trigger] after.own_property(parent, k) == before.own_property(parent, k)
}

/// Creates a native routine object (its prototype `Function.prototype`)
/// named `name` and of length `length`, and installs it on `parent` under
/// `name` (writable, not enumerable, configurable).
pub fn make_builtin_fn(
    function: NativeFunction,
    name: &str,
    parent: JsObject,
    length: usize,
    context: &mut Context,
)
    requires
        old(context).wf(),
        old(context).valid(parent),
        length <= i64::MAX,
    ensures
        is_builtin_of(old(context), final(context), function, name@, parent, length as int),
{
    proof {
        reveal_strlit("length");
        reveal_strlit("name");
        assert(named("length"@) != named("name"@)) by {
            assert("length"@.len() != "name"@.len());
        }
    }
    let prototype = Some(context.function_prototype);
    let f = context.allocate(
        Object {
            prototype,
            properties: Vec::new(),
            data: ObjectData::Function(Function::Native { function, constructor: false }),
        },
    );
    context.define_property(f, string_key("length"), fixed(JsValue::Number(Number::Integer(length as i64))));
    let ghost length_property = Some(fixed(JsValue::Number(Number::Integer(length as i64))));
    assert(context.own_property(f, named("length"@)) == length_property);
    context.define_property(f, string_key("name"), fixed(JsValue::String(name.to_string())));
    assert(context.own_property(f, named("length"@)) == length_property);
    let installed = PropertyDescriptor {
        value: JsValue::Object(f),
        writable: true,
        enumerable: false,
        configurable: true,
    };
    context.define_property(parent, string_key(name), installed);
}

/// The prototype of an object made by `new Function` with `new_target`.
pub open spec fn constructor_prototype(ctx: &Context, new_target: JsValue) -> JsObject {
    match new_target {
        JsValue::Object(o) => if ctx.valid(o) {
            match ctx.get_spec(o, named("prototype"@)) {
                JsValue::Object(p) => if ctx.valid(p) {
                    p
                } else {
                    ctx.function_prototype
                },
                _ => ctx.function_prototype,
            }
        } else {
            ctx.function_prototype
        },
        _ => ctx.function_prototype,
    }
}

/// Whether `m` is a native routine `function` that is not a constructor,
/// named `name` and of length `length`.
pub open spec fn is_native_routine(
    ctx: &Context,
    m: JsObject,
    function: NativeFunction,
    name: Seq<char>,
    length: int,
) -> bool {
    &&& ctx.valid(m)
    &&& ctx.data(m) matches ObjectData::Function(Function::Native { function: f, constructor: c })
        && *f == function && !*c
    &&& ctx.own_property(m, named("length"@)) == Some(
        fixed(JsValue::Number(Number::Integer(length as i64))),
    )
    &&& ctx.own_property(m, named("name"@)) matches Some(d) && is_fixed_attributes(d) && is_text(
        d.value,
        name,
    )
}

/// Whether the own property `key` of `parent` is such a native routine.
pub open spec fn has_native_method(
    ctx: &Context,
    parent: JsObject,
    key: KeyView,
    function: NativeFunction,
    name: Seq<char>,
    length: int,
) -> bool {
    match ctx.own_property(parent, key) {
        Some(d) => match d.value {
            JsValue::Object(m) => is_native_routine(ctx, m, function, name, length),
            _ => false,
        },
        None => false,
    }
}

/// Whether `Function.prototype` of `ctx` has the empty `name` and the
/// `length` 0.
pub open spec fn is_fp_named(ctx: &Context) -> bool {
    let fp = ctx.function_prototype;
    &&& ctx.own_property(fp, named("length"@)) == Some(fixed(JsValue::Number(Number::Integer(0))))
    &&& ctx.own_property(fp, named("name"@)) matches Some(d) && is_fixed_attributes(d) && is_text(
        d.value,
        Seq::empty(),
    )
}

/// Whether `Function.prototype` of `ctx` has the methods `apply`, `bind`,
/// `call` and `toString`.
pub open spec fn is_methods_installed(ctx: &Context) -> bool {
    let fp = ctx.function_prototype;
    &&& has_native_method(ctx, fp, named("apply"@), NativeFunction::Apply, "apply"@, 1)
    &&& has_native_method(ctx, fp, named("bind"@), NativeFunction::Bind, "bind"@, 1)
    &&& has_native_method(ctx, fp, named("call"@), NativeFunction::Call, "call"@, 1)
    &&& has_native_method(ctx, fp, named("toString"@), NativeFunction::ToString, "toString"@, 0)
}

/// Whether `Function.prototype` of `ctx` is wired to the constructor `c`: its
/// `name` is empty and its `length` 0, it has the methods `apply`, `bind`,
/// `call` (of length 1), `toString` (of length 0) and `[Symbol.hasInstance]`
/// (of length 1), and its `constructor` is `c`.
pub open spec fn is_function_prototype_of(ctx: &Context, c: JsObject) -> bool {
    let fp = ctx.function_prototype;
    &&& is_fp_named(ctx)
    &&& is_methods_installed(ctx)
    &&& has_native_method(
        ctx,
        fp,
        KeyView::Symbol(HAS_INSTANCE_SYMBOL_ID),
        NativeFunction::HasInstance,
        "[Symbol.hasInstance]"@,
        1,
    )
    &&& ctx.own_property(fp, named("constructor"@)) matches Some(d) && d.value == JsValue::Object(c)
}

/// Whether `c` is the `Function` constructor of `ctx`: a native constructor
/// named `"Function"` of length 1, whose `prototype` is `Function.prototype`.
pub open spec fn is_function_constructor(ctx: &Context, c: JsObject) -> bool {
    &&& ctx.data(c) matches ObjectData::Function(Function::Native { function: f, constructor: k })
        && *f == NativeFunction::FunctionConstructor && *k
    &&& ctx.own_property(c, named("length"@)) == Some(fixed(JsValue::Number(Number::Integer(1))))
    &&& ctx.own_property(c, named("name"@)) matches Some(d) && is_fixed_attributes(d) && is_text(
        d.value,
        "Function"@,
    )
    &&& ctx.own_property(c, named("prototype"@)) matches Some(d) && d.value == JsValue::Object(
        ctx.function_prototype,
    ) && !d.writable && !d.enumerable && !d.configurable
}

/// The error of calling or applying a value that is not callable.
fn not_a_function_error(v: &JsValue) -> (r: JsError)
    ensures
        r matches JsError::TypeError(s) && s@ == not_a_function(*v),
{
    let mut s = v.display();
    append_text(&mut s, " is not a function");
    JsError::TypeError(s)
}

impl BoundFunction {
    /// Abstract operation `BoundFunctionCreate`: a new bound wrapper of
    /// `target_function`, with its prototype and its constructor flag.
    pub fn create(
        target_function: JsObject,
        this: JsValue,
        args: Vec<JsValue>,
        context: &mut Context,
    ) -> (r: JsResult<JsObject>)
        requires
            old(context).wf(),
            old(context).valid(target_function),
        ensures
            r == Ok::<JsObject, JsError>(JsObject { index: old(context).objects.len() }),
            grows_by_one(old(context), final(context)),
            is_bound_wrapper(
                final(context),
                JsObject { index: old(context).objects.len() },
                target_function,
                this,
                args@,
                is_constructor_data(old(context).data(target_function)),
            ),
            final(context).objects@[old(context).objects.len() as int].prototype == old(
            context).objects@[target_function.index as int].prototype,
            final(context).objects@[old(context).objects.len() as int].properties@.len() == 0,
    {
        let proto = context.get_prototype_of(target_function);
        let is_constructor = context.is_constructor(target_function);
        let function = BoundFunction::new(target_function, this, args);
        let o = context.allocate(
            Object {
                prototype: proto,
                properties: Vec::new(),
                data: ObjectData::BoundFunction { function, constructor: is_constructor },
            },
        );
        Ok(o)
    }
}

/// The `Function` constructor and the methods of `Function.prototype`.
#[derive(Debug, Clone, Copy)]
pub struct BuiltInFunctionObject;

impl BuiltInFunctionObject {
    /// The length of the `Function` constructor.
    pub const LENGTH: usize = 1;

    /// `Function.prototype.call ( thisArg, ...args )`: the call of `this`
    /// with receiver `thisArg` and the remaining arguments.
    pub fn call(this: &JsValue, args: &[JsValue], context: &Context) -> (r: JsResult<Invocation>)
        requires
            context.wf(),
        ensures
            context.callable(*this) is None ==> is_type_error(r, not_a_function(*this)),
            context.callable(*this) matches Some(f) ==> r matches Ok(inv) && is_call(
                inv,
                call_plan(context, f, arg_or_undefined(args@, 0), args_from(args@, 1)),
            ),
    {
        let func = match context.as_callable(this) {
            Some(f) => f,
            None => {
                return Err(not_a_function_error(this));
            },
        };
        let this_arg = get_or_undefined(args, 0);
        Ok(context.prepare_call(func, this_arg, get_from(args, 1)))
    }

    /// `Function.prototype.apply ( thisArg, argArray )`: the call of `this`
    /// with receiver `thisArg` and the elements of `argArray`, or no
    /// arguments where `argArray` is `null` or `undefined`.
    pub fn apply(this: &JsValue, args: &[JsValue], context: &Context) -> (r: JsResult<Invocation>)
        requires
            context.wf(),
        ensures
            context.callable(*this) is None ==> is_type_error(r, not_a_function(*this)),
            context.callable(*this) matches Some(f) ==> {
                let arg_array = arg_or_undefined(args@, 1);
                let this_arg = arg_or_undefined(args@, 0);
                if arg_array is Null || arg_array is Undefined {
                    r matches Ok(inv) && is_call(inv, call_plan(context, f, this_arg, Seq::empty()))
                } else {
                    match array_like_list(context, arg_array) {
                        None => is_type_error(r, not_an_object()),
                        Some(l) => r matches Ok(inv) && is_call(inv, call_plan(context, f, this_arg, l)),
                    }
                }
            },
    {
        let func = match context.as_callable(this) {
            Some(f) => f,
            None => {
                return Err(not_a_function_error(this));
            },
        };
        let this_arg = get_or_undefined(args, 0);
        let arg_array = get_or_undefined(args, 1);
        if arg_array.is_null_or_undefined() {
            return Ok(context.prepare_call(func, this_arg, Vec::new()));
        }
        let arg_list = match create_list_from_array_like(&arg_array, context) {
            Ok(l) => l,
            Err(e) => {
                return Err(e);
            },
        };
        Ok(context.prepare_call(func, this_arg, arg_list))
    }

    /// `Function ( ...args )`: a new native function that returns
    /// `undefined`, whose prototype is the `prototype` of `new_target` where
    /// that is an object of the heap, and `Function.prototype` otherwise.
    pub fn constructor(new_target: &JsValue, args: &[JsValue], context: &mut Context) -> (r: JsResult<JsValue>)
        requires
            old(context).wf(),
        ensures
            r == Ok::<JsValue, JsError>(JsValue::Object(JsObject { index: old(context).objects.len() })),
            grows_by_one(old(context), final(context)),
            final(context).objects@[old(context).objects.len() as int].prototype == Some(
                constructor_prototype(old(context), *new_target),
            ),
            final(context).data(JsObject { index: old(context).objects.len() }) matches ObjectData::Function(
                Function::Native { function: f, constructor: c },
            ) && *f == NativeFunction::FunctionPrototype && *c,
    {
        let prototype = match new_target {
            JsValue::Object(o) => {
                if o.index < context.objects.len() {
                    match context.get(*o, &string_key("prototype")) {
                        JsValue::Object(p) => {
                            if p.index < context.objects.len() {
                                p
                            } else {
                                context.function_prototype
                            }
                        },
                        _ => context.function_prototype,
                    }
                } else {
                    context.function_prototype
                }
            },
            _ => context.function_prototype,
        };
        let o = context.allocate(
            Object {
                prototype: Some(prototype),
                properties: Vec::new(),
                data: ObjectData::Function(
                    Function::Native { function: NativeFunction::FunctionPrototype, constructor: true },
                ),
            },
        );
        Ok(JsValue::Object(o))
    }

    /// `Function.prototype [ @@hasInstance ] ( V )`: `OrdinaryHasInstance`
    /// of `this` and the first argument.
    pub fn has_instance(this: &JsValue, args: &[JsValue], context: &Context) -> (r: JsResult<JsValue>)
        requires
            context.wf(),
        ensures
            has_instance_spec(context, *this, arg_or_undefined(args@, 0)) matches Some(b) ==> r matches Ok(
                v,
            ) && v == JsValue::Boolean(b),
            has_instance_spec(context, *this, arg_or_undefined(args@, 0)) is None ==> is_type_error(
                r,
                prototype_not_object(),
            ),
    {
        let v = get_or_undefined(args, 0);
        let f = match context.as_callable(this) {
            Some(f) => f,
            None => {
                return Ok(JsValue::Boolean(false));
            },
        };
        let ghost t0 = unbound_target(context, f);
        let mut t = f;
        loop
            invariant
                context.wf(),
                context.valid(t),
                t0 == unbound_target(context, f),
                t0 == unbound_target(context, t),
            ensures
                context.valid(t),
                t0 == t,
            decreases t.index,
        {
            match &context.objects[t.index].data {
                ObjectData::BoundFunction { function, .. } => {
                    assert(crate::object::object_wf(&context.objects@[t.index as int], t.index as int, context.objects.len() as int));
                    t = *function.target_function();
                },
                _ => {
                    break;
                },
            }
        }
        assert(t == t0);
        let o = match v {
            JsValue::Object(o) => o,
            _ => {
                return Ok(JsValue::Boolean(false));
            },
        };
        let p = match context.get(t, &string_key("prototype")) {
            JsValue::Object(p) => p,
            _ => {
                return Err(
                    JsError::TypeError("function has non-object prototype in instanceof check".to_string()),
                );
            },
        };
        let n = context.objects.len();
        assert(has_instance_spec(context, *this, arg_or_undefined(args@, 0)) == Some(
            chain_has(context, o, p, n as nat),
        ));
        let mut cur = o;
        let mut fuel: usize = n;
        while fuel > 0
            invariant
                has_instance_spec(context, *this, arg_or_undefined(args@, 0)) == Some(
                    chain_has(context, o, p, n as nat),
                ),
                context.wf(),
                n == context.objects.len(),
                fuel <= n,
                chain_has(context, o, p, n as nat) == chain_has(context, cur, p, fuel as nat),
            decreases fuel,
        {
            if cur.index >= context.objects.len() {
                return Ok(JsValue::Boolean(false));
            }
            match context.objects[cur.index].prototype {
                None => {
                    return Ok(JsValue::Boolean(false));
                },
                Some(q) => {
                    if q == p {
                        return Ok(JsValue::Boolean(true));
                    }
                    cur = q;
                    fuel = fuel - 1;
                },
            }
        }
        Ok(JsValue::Boolean(false))
    }

    /// The routine of `Function.prototype` itself: returns `undefined`.
    pub fn prototype(this: &JsValue, args: &[JsValue], context: &Context) -> (r: JsResult<JsValue>)
        ensures
            r matches Ok(v) && v is Undefined,
    {
        Ok(JsValue::Undefined)
    }

    /// Installs the `Function` constructor: its `name`, `length` and
    /// `prototype`, and on `Function.prototype` its `name`, `length`,
    /// `constructor`, the methods `apply`, `bind`, `call` and `toString`, and
    /// `[Symbol.hasInstance]`. Returns the constructor.
    pub fn init(context: &mut Context) -> (r: JsValue)
        requires
            old(context).wf(),
        ensures
            final(context).wf(),
            final(context).function_prototype == old(context).function_prototype,
            r matches JsValue::Object(c) && final(context).valid(c) && is_function_constructor(final(context), c)
                && is_function_prototype_of(final(context), c),
    {
        proof {
            reveal_strlit("length");
            reveal_strlit("name");
            reveal_strlit("prototype");
            reveal_strlit("constructor");
            reveal_strlit("apply");
            reveal_strlit("bind");
            reveal_strlit("call");
            reveal_strlit("toString");
            reveal_strlit("");
            reveal_strlit("[Symbol.hasInstance]");
            assert(named("length"@) != named("apply"@)) by {
                assert("length"@.len() != "apply"@.len());
            }
            assert(named("length"@) != named("bind"@)) by {
                assert("length"@.len() != "bind"@.len());
            }
            assert(named("length"@) != named("call"@)) by {
                assert("length"@.len() != "call"@.len());
            }
            assert(named("length"@) != named("toString"@)) by {
                assert("length"@.len() != "toString"@.len());
            }
            assert(named("length"@) != named("constructor"@)) by {
                assert("length"@.len() != "constructor"@.len());
            }
            assert(named("name"@) != named("apply"@)) by {
                assert("name"@.len() != "apply"@.len());
            }
            assert(named("name"@) != named("bind"@)) by {
                assert("name"@[0] != "bind"@[0]);
            }
            assert(named("name"@) != named("call"@)) by {
                assert("name"@[0] != "call"@[0]);
            }
            assert(named("name"@) != named("toString"@)) by {
                assert("name"@.len() != "toString"@.len());
            }
            assert(named("name"@) != named("constructor"@)) by {
                assert("name"@.len() != "constructor"@.len());
            }
            assert(named("apply"@) != named("bind"@)) by {
                assert("apply"@.len() != "bind"@.len());
            }
            assert(named("apply"@) != named("call"@)) by {
                assert("apply"@.len() != "call"@.len());
            }
            assert(named("apply"@) != named("toString"@)) by {
                assert("apply"@.len() != "toString"@.len());
            }
            assert(named("apply"@) != named("constructor"@)) by {
                assert("apply"@.len() != "constructor"@.len());
            }
            assert(named("bind"@) != named("call"@)) by {
                assert("bind"@[0] != "call"@[0]);
            }
            assert(named("bind"@) != named("toString"@)) by {
                assert("bind"@.len() != "toString"@.len());
            }
            assert(named("bind"@) != named("constructor"@)) by {
                assert("bind"@.len() != "constructor"@.len());
            }
            assert(named("call"@) != named("toString"@)) by {
                assert("call"@.len() != "toString"@.len());
            }
            assert(named("call"@) != named("constructor"@)) by {
                assert("call"@.len() != "constructor"@.len());
            }
            assert(named("toString"@) != named("constructor"@)) by {
                assert("toString"@.len() != "constructor"@.len());
            }
            assert(named("length"@) != named("name"@)) by {
                assert("length"@.len() != "name"@.len());
            }
            assert(named("prototype"@) != named("name"@)) by {
                assert("prototype"@.len() != "name"@.len());
            }
            assert(named("prototype"@) != named("length"@)) by {
                assert("prototype"@.len() != "length"@.len());
            }
        }
        let fp = context.function_prototype;
        context.define_property(fp, string_key("length"), fixed(JsValue::Number(Number::Integer(0))));
        context.define_property(fp, string_key("name"), fixed(JsValue::String(String::new())));
        assert(is_fp_named(context));

        let c = context.allocate(
            Object {
                prototype: Some(fp),
                properties: Vec::new(),
                data: ObjectData::Function(
                    Function::Native { function: NativeFunction::FunctionConstructor, constructor: true },
                ),
            },
        );
        context.define_property(
            c,
            string_key("length"),
            fixed(JsValue::Number(Number::Integer(Self::LENGTH as i64))),
        );
        context.define_property(c, string_key("name"), fixed(JsValue::String("Function".to_string())));
        let sealed = PropertyDescriptor {
            value: JsValue::Object(fp),
            writable: false,
            enumerable: false,
            configurable: false,
        };
        context.define_property(c, string_key("prototype"), sealed);
        assert(is_function_constructor(context, c));

        assert(is_fp_named(context));
        make_builtin_fn(NativeFunction::Apply, "apply", fp, 1, context);
        assert(has_native_method(context, fp, named("apply"@), NativeFunction::Apply, "apply"@, 1));
        make_builtin_fn(NativeFunction::Bind, "bind", fp, 1, context);
        assert(has_native_method(context, fp, named("apply"@), NativeFunction::Apply, "apply"@, 1));
        assert(has_native_method(context, fp, named("bind"@), NativeFunction::Bind, "bind"@, 1));
        make_builtin_fn(NativeFunction::Call, "call", fp, 1, context);
        assert(has_native_method(context, fp, named("apply"@), NativeFunction::Apply, "apply"@, 1));
        assert(has_native_method(context, fp, named("bind"@), NativeFunction::Bind, "bind"@, 1));
        assert(has_native_method(context, fp, named("call"@), NativeFunction::Call, "call"@, 1));
        make_builtin_fn(NativeFunction::ToString, "toString", fp, 0, context);
        assert(is_methods_installed(context));
        assert(is_fp_named(context));
        assert(is_function_constructor(context, c));

        let h = context.allocate(
            Object {
                prototype: Some(fp),
                properties: Vec::new(),
                data: ObjectData::Function(
                    Function::Native { function: NativeFunction::HasInstance, constructor: false },
                ),
            },
        );
        context.define_property(h, string_key("length"), fixed(JsValue::Number(Number::Integer(1))));
        context.define_property(
            h,
            string_key("name"),
            fixed(JsValue::String("[Symbol.hasInstance]".to_string())),
        );
        let symbol = JsSymbol {
            id: HAS_INSTANCE_SYMBOL_ID,
            description: Some("Symbol.hasInstance".to_string()),
        };
        let method = PropertyDescriptor {
            value: JsValue::Object(h),
            writable: false,
            enumerable: false,
            configurable: false,
        };
        assert(is_methods_installed(context));
        assert(is_native_routine(context, h, NativeFunction::HasInstance, "[Symbol.hasInstance]"@, 1));
        context.define_property(fp, PropertyKey::Symbol(symbol), method);
        assert(is_methods_installed(context));
        assert(is_fp_named(context));
        assert(is_function_constructor(context, c));
        let back = PropertyDescriptor {
            value: JsValue::Object(c),
            writable: true,
            enumerable: false,
            configurable: true,
        };
        context.define_property(fp, string_key("constructor"), back);
        JsValue::Object(c)
    }

    /// `Function.prototype.toString ( )`: the source text of `this`, named
    /// by its `name`.
    pub fn to_string(this: &JsValue, args: &[JsValue], context: &Context) -> (r: JsResult<JsValue>)
        requires
            context.wf(),
        ensures
            !is_function_value(context, *this) ==> is_type_error(r, not_a_function_object()),
            is_function_value(context, *this) ==> {
                let o = this->Object_0;
                let name = context.get_spec(o, named("name"@));
                match name_text(name) {
                    None => is_type_error(r, conversion_error(name)),
                    Some(n) => context.data(o) matches ObjectData::Function(f) && r matches Ok(v)
                        && is_text(v, function_source(f, n)),
                }
            },
    {
        proof {
            reveal_strlit("true");
            reveal_strlit("false");
        }
        let o = match this {
            JsValue::Object(o) => {
                if o.index < context.objects.len() && matches!(&context.objects[o.index].data, ObjectData::Function(_)) {
                    *o
                } else {
                    return Err(JsError::TypeError("Not a function".to_string()));
                }
            },
            _ => {
                return Err(JsError::TypeError("Not a function".to_string()));
            },
        };
        let name = match context.get(o, &string_key("name")) {
            JsValue::Undefined => String::new(),
            JsValue::Null => String::new(),
            JsValue::Boolean(b) => if b {
                "true".to_string()
            } else {
                "false".to_string()
            },
            JsValue::Number(n) => {
                let mut s = String::new();
                append_number(&mut s, n);
                s
            },
            JsValue::String(s) => s,
            JsValue::Symbol(_) => {
                return Err(JsError::TypeError("Cannot convert a Symbol value to a string".to_string()));
            },
            JsValue::Object(_) => {
                return Err(JsError::TypeError("Cannot convert object to primitive value".to_string()));
            },
        };
        match &context.objects[o.index].data {
            ObjectData::Function(Function::Ordinary { params, body, .. }) => {
                let source = body.source.as_str();
                let t = trim(source);
                Ok(JsValue::String(render_ordinary(name.as_str(), params.as_slice(), source, t.as_str())))
            },
            _ => Ok(JsValue::String(render_native(name.as_str()))),
        }
    }

    /// `Function.prototype.bind ( thisArg, ...args )`: a new bound wrapper of
    /// `this` with receiver `thisArg` and the remaining arguments, whose
    /// `length` is derived from the target's and whose name is `"bound "`
    /// followed by the target's.
    pub fn bind(this: &JsValue, args: &[JsValue], context: &mut Context) -> (r: JsResult<JsValue>)
        requires
            old(context).wf(),
        ensures
            final(context).wf(),
            old(context).callable(*this) is None ==> is_type_error(r, not_a_function(*this)) && *final(context)
                == *old(context),
            old(context).callable(*this) matches Some(t) ==> is_bind_of(old(context), final(context), t, args@, r),
    {
        let target = match context.as_callable(this) {
            Some(t) => t,
            None => {
                return Err(not_a_function_error(this));
            },
        };
        let this_arg = get_or_undefined(args, 0);
        let bound_args = get_from(args, 1);
        let arg_count = bound_args.len();
        // The target's `length` and `name` are data properties: reading them
        // before the wrapper exists observes what reading them after would.
        let target_len = match context.get_own_property(target, &string_key("length")) {
            Some(d) => Some(d.value),
            None => None,
        };
        let target_name = match context.get(target, &string_key("name")) {
            JsValue::String(s) => s,
            _ => String::new(),
        };
        let l = bound_function_length(&target_len, arg_count);
        let f = match BoundFunction::create(target, this_arg, bound_args, context) {
            Ok(f) => f,
            Err(e) => {
                return Err(e);
            },
        };
        context.define_property(f, string_key("length"), fixed(JsValue::Number(l)));
        proof {
            reveal_strlit("length");
            reveal_strlit("name");
            reveal_strlit("bound");
            reveal_strlit(" ");
            reveal_strlit("bound ");
            assert(named("length"@) != named("name"@)) by {
                assert("length"@.len() != "name"@.len());
            }
            assert("bound"@ + " "@ =~= "bound "@);
        }
        set_function_name(f, &PropertyKey::String(target_name), Some("bound"), context);
        Ok(JsValue::Object(f))
    }
}

} // verus!
