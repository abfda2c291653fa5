use vstd::prelude::*;
use crate::captures::Captures;
use crate::function::{FormalParameter, Function};
use crate::object::{object_wf, Context, Object, ObjectData};
use crate::value::{JsObject, JsValue};

verus! {

/// What the engine must run: a callable that is not a bound wrapper, with the
/// receiver and the arguments of a call, or with the arguments and the
/// `new.target` of a construction.
pub enum Invocation {
    Call { target: JsObject, this: JsValue, args: Vec<JsValue> },
    Construct { target: JsObject, args: Vec<JsValue>, new_target: JsObject },
}

/// The callable, receiver and arguments that calling `f` with `this` and
/// `args` comes to: a bound wrapper passes its stored receiver, and its stored
/// arguments before the given ones, on to its target.
pub open spec fn call_plan(ctx: &Context, f: JsObject, this: JsValue, args: Seq<JsValue>) -> (
    JsObject,
    JsValue,
    Seq<JsValue>,
)
    decreases f.index,
{
    if ctx.valid(f) {
        match ctx.data(f) {
            ObjectData::BoundFunction { function, .. } => if function.target_spec().index < f.index {
                call_plan(ctx, function.target_spec(), function.this_spec(), function.args_spec() + args)
            } else {
                (f, this, args)
            },
            _ => (f, this, args),
        }
    } else {
        (f, this, args)
    }
}

/// The callable, arguments and `new.target` that constructing `f` with `args`
/// comes to: a bound wrapper ignores its stored receiver, puts its stored
/// arguments first, and passes its target on as `new.target` where it was
/// itself the `new.target`.
pub open spec fn construct_plan(ctx: &Context, f: JsObject, args: Seq<JsValue>, new_target: JsObject) -> (
    JsObject,
    Seq<JsValue>,
    JsObject,
)
    decreases f.index,
{
    if ctx.valid(f) {
        match ctx.data(f) {
            ObjectData::BoundFunction { function, .. } => if function.target_spec().index < f.index {
                let target = function.target_spec();
                construct_plan(
                    ctx,
                    target,
                    function.args_spec() + args,
                    if new_target == f {
                        target
                    } else {
                        new_target
                    },
                )
            } else {
                (f, args, new_target)
            },
            _ => (f, args, new_target),
        }
    } else {
        (f, args, new_target)
    }
}

/// Whether `inv` calls `plan.0` with receiver `plan.1` and arguments `plan.2`.
pub open spec fn is_call(inv: Invocation, plan: (JsObject, JsValue, Seq<JsValue>)) -> bool {
    inv matches Invocation::Call { target, this, args } && target == plan.0 && this == plan.1
        && args@ == plan.2
}

/// Whether `inv` constructs `plan.0` with arguments `plan.1` and `new.target`
/// `plan.2`.
pub open spec fn is_construct(inv: Invocation, plan: (JsObject, Seq<JsValue>, JsObject)) -> bool {
    inv matches Invocation::Construct { target, args, new_target } && target == plan.0 && args@
        == plan.1 && new_target == plan.2
}

/// Whether `o` is an array that holds `elements`.
pub open spec fn is_array_of(ctx: &Context, o: JsObject, elements: Seq<JsValue>) -> bool {
    &&& ctx.valid(o)
    &&& ctx.data(o) matches ObjectData::Array(v) && v@ == elements
}

/// Whether `v` is an array allocated at or after `start` that holds `elements`.
pub open spec fn is_new_array(ctx: &Context, start: int, v: JsValue, elements: Seq<JsValue>) -> bool {
    v matches JsValue::Object(o) && start <= o.index && is_array_of(ctx, o, elements)
}

/// The argument at `i`, or `undefined` past the end.
pub open spec fn arg_or_undefined(args: Seq<JsValue>, i: int) -> JsValue {
    if 0 <= i < args.len() {
        args[i]
    } else {
        JsValue::Undefined
    }
}

/// The argument at `i`, or `undefined` past the end.
pub fn get_or_undefined(args: &[JsValue], i: usize) -> (r: JsValue)
    ensures
        r == arg_or_undefined(args@, i as int),
{
    if i < args.len() {
        args[i].duplicate()
    } else {
        JsValue::Undefined
    }
}

/// The arguments from `i` on: none past the end.
pub open spec fn args_from(args: Seq<JsValue>, i: int) -> Seq<JsValue> {
    if i < args.len() {
        args.subrange(i, args.len() as int)
    } else {
        Seq::empty()
    }
}

/// Copies the arguments from `i` on.
pub fn get_from(args: &[JsValue], i: usize) -> (r: Vec<JsValue>)
    ensures
        r@ == args_from(args@, i as int),
{
    let mut r: Vec<JsValue> = Vec::new();
    if i >= args.len() {
        assert(r@ =~= args_from(args@, i as int));
        return r;
    }
    let mut j: usize = i;
    while j < args.len()
        invariant
            i <= j <= args@.len(),
            r@ == args@.subrange(i as int, j as int),
        decreases args@.len() - j,
    {
        r.push(args[j].duplicate());
        j = j + 1;
        assert(r@ =~= args@.subrange(i as int, j as int));
    }
    r
}

impl Context {
    /// Resolves a call of the callable `f` with receiver `this` and `args`.
    pub fn prepare_call(&self, f: JsObject, this_arg: JsValue, call_args: Vec<JsValue>) -> (r: Invocation)
        requires
            self.wf(),
            self.valid(f),
        ensures
            is_call(r, call_plan(self, f, this_arg, call_args@)),
    {
        let ghost plan = call_plan(self, f, this_arg, call_args@);
        let mut cur = f;
        let mut this = this_arg;
        let mut args = call_args;
        loop
            invariant
                self.wf(),
                self.valid(cur),
                plan == call_plan(self, cur, this, args@),
                plan == call_plan(self, f, this_arg, call_args@),
            decreases cur.index,
        {
            match &self.objects[cur.index].data {
                ObjectData::BoundFunction { function, .. } => {
                    assert(object_wf(&self.objects@[cur.index as int], cur.index as int, self.objects.len() as int));
                    this = function.this().duplicate();
                    args = function.prepend_args(args.as_slice());
                    cur = *function.target_function();
                },
                _ => {
                    return Invocation::Call { target: cur, this, args };
                },
            }
        }
    }

    /// Resolves a construction of `f` with `args` and `new_target`.
    pub fn prepare_construct(&self, f: JsObject, construct_args: Vec<JsValue>, target_of_new: JsObject) -> (r: Invocation)
        requires
            self.wf(),
            self.valid(f),
        ensures
            is_construct(r, construct_plan(self, f, construct_args@, target_of_new)),
    {
        let ghost plan = construct_plan(self, f, construct_args@, target_of_new);
        let mut cur = f;
        let mut args = construct_args;
        let mut new_target = target_of_new;
        loop
            invariant
                self.wf(),
                self.valid(cur),
                plan == construct_plan(self, cur, args@, new_target),
                plan == construct_plan(self, f, construct_args@, target_of_new),
            decreases cur.index,
        {
            match &self.objects[cur.index].data {
                ObjectData::BoundFunction { function, .. } => {
                    assert(object_wf(&self.objects@[cur.index as int], cur.index as int, self.objects.len() as int));
                    let target = *function.target_function();
                    args = function.prepend_args(args.as_slice());
                    if new_target == cur {
                        new_target = target;
                    }
                    cur = target;
                },
                _ => {
                    return Invocation::Construct { target: cur, args, new_target };
                },
            }
        }
    }

    /// A second handle to the captured state of a native closure `o`.
    pub fn captures_of(&self, o: JsObject) -> (r: Option<Captures>)
        requires
            self.valid(o),
        ensures
            r is Some <==> self.data(o) matches ObjectData::Function(Function::Closure { .. }),
            self.data(o) matches ObjectData::Function(Function::Closure { captures, .. }) ==> (r matches Some(
                c,
            ) && c.cell() == captures.cell()),
    {
        match &self.objects[o.index].data {
            ObjectData::Function(Function::Closure { captures, .. }) => Some(captures.share()),
            _ => None,
        }
    }

    /// A new array that holds `elements`.
    pub fn create_array(&mut self, elements: Vec<JsValue>) -> (r: JsObject)
        requires
            old(self).wf(),
        ensures
            final(self).wf(),
            r.index == old(self).objects.len(),
            final(self).objects@.len() == old(self).objects@.len() + 1,
            forall|i: int| 0 <= i < old(self).objects.len() ==> #[trigger] final(self).objects@[i] == old(self).objects@[i],
            final(self).object_prototype == old(self).object_prototype,
            final(self).function_prototype == old(self).function_prototype,
            final(self).objects@[r.index as int].data matches ObjectData::Array(v) && v@ == elements@,
    {
        let prototype = Some(self.object_prototype);
        self.allocate(Object { prototype, properties: Vec::new(), data: ObjectData::Array(elements) })
    }
}

impl Function {
    /// The rest parameter at `index`: a new array of the arguments from there on.
    pub fn add_rest_param(index: usize, args_list: &[JsValue], context: &mut Context) -> (r: JsValue)
        requires
            old(context).wf(),
        ensures
            final(context).wf(),
            r == JsValue::Object(JsObject { index: old(context).objects.len() }),
            final(context).objects@.len() == old(context).objects@.len() + 1,
            forall|i: int| 0 <= i < old(context).objects.len() ==> #[trigger] final(context).objects@[i] == old(context).objects@[i],
            final(context).object_prototype == old(context).object_prototype,
            final(context).function_prototype == old(context).function_prototype,
            final(context).objects@[old(context).objects.len() as int].data matches ObjectData::Array(v) && v@
                == args_from(args_list@, index as int),
    {
        let elements = get_from(args_list, index);
        JsValue::Object(context.create_array(elements))
    }

    /// The values that the formal parameters of an interpreted function take
    /// from `args`, in order: each the argument at its position (`undefined`
    /// past the end), and a rest parameter a new array of the arguments from
    /// its position on. The engine binds each to its declaration.
    pub fn add_arguments_to_environment(params: &[FormalParameter], args: &[JsValue], context: &mut Context) -> (r: Vec<JsValue>)
        requires
            old(context).wf(),
        ensures
            final(context).wf(),
            r@.len() == params@.len(),
            final(context).objects@.len() >= old(context).objects@.len(),
            forall|i: int| 0 <= i < old(context).objects.len() ==> #[trigger] final(context).objects@[i] == old(context).objects@[i],
            final(context).object_prototype == old(context).object_prototype,
            final(context).function_prototype == old(context).function_prototype,
            forall|i: int|
                0 <= i < params@.len() && !(#[trigger] params@[i]).is_rest_param ==> r@[i] == arg_or_undefined(args@, i),
            forall|i: int|
                0 <= i < params@.len() && (#[trigger] params@[i]).is_rest_param ==> is_new_array(
                    final(context), old(context).objects.len() as int, r@[i], args_from(args@, i)),
    {
        let mut r: Vec<JsValue> = Vec::new();
        let mut i: usize = 0;
        while i < params.len()
            invariant
                i <= params@.len(),
                r@.len() == i,
                context.wf(),
                context.objects@.len() >= old(context).objects@.len(),
                forall|j: int| 0 <= j < old(context).objects.len() ==> #[trigger] context.objects@[j] == old(context).objects@[j],
                context.object_prototype == old(context).object_prototype,
                context.function_prototype == old(context).function_prototype,
                forall|j: int|
                    0 <= j < i && !(#[trigger] params@[j]).is_rest_param ==> r@[j] == arg_or_undefined(args@, j),
                forall|j: int|
                    0 <= j < i && (#[trigger] params@[j]).is_rest_param ==> is_new_array(
                        context, old(context).objects.len() as int, r@[j], args_from(args@, j)),
            decreases params@.len() - i,
        {
            let v = if params[i].is_rest_param {
                Function::add_rest_param(i, args, context)
            } else {
                get_or_undefined(args, i)
            };
            r.push(v);
            i = i + 1;
        }
        r
    }
}

} // verus!
