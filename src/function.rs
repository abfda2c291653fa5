use vstd::prelude::*;
use std::rc::Rc;
use crate::captures::Captures;
use crate::kinds::ThisMode;
use crate::value::{copy_values, JsObject, JsValue};

verus! {

/// The entry point of a native routine: a plain, copyable handle that the
/// embedding resolves to code. The routines of `Function` and
/// `Function.prototype` have their own handles; `Host` is any other routine.
#[derive(Debug, Clone, Copy, PartialEq, Eq, Structural)]
pub enum NativeFunction {
    FunctionConstructor,
    FunctionPrototype,
    Apply,
    Bind,
    Call,
    ToString,
    HasInstance,
    Host(u32),
}

/// The entry point of a native closure: a plain, copyable handle, which takes
/// the closure's [`Captures`] as an extra argument when it runs.
#[derive(Debug, Clone, Copy, PartialEq, Eq, Structural)]
pub struct ClosureFunction {
    pub id: u32,
}

/// A handle to a lexical environment of the embedding.
#[derive(Debug, Clone, Copy, PartialEq, Eq, Structural)]
pub struct Environment {
    pub index: usize,
}

/// The body of an interpreted function, as source text.
#[derive(Debug, Clone)]
pub struct StatementList {
    pub source: String,
}

/// What a formal parameter binds: one identifier, or the identifiers of a
/// destructuring pattern.
#[derive(Debug, Clone)]
pub enum Declaration {
    Identifier { ident: String },
    Pattern { idents: Vec<String> },
}

/// A formal parameter of an interpreted function.
#[derive(Debug, Clone)]
pub struct FormalParameter {
    pub declaration: Declaration,
    pub is_rest_param: bool,
}

/// A callable: exactly one of a native routine, a native closure with its
/// captured state, or an interpreted function.
pub enum Function {
    Native { function: NativeFunction, constructor: bool },
    Closure { function: ClosureFunction, constructor: bool, captures: Captures },
    Ordinary {
        constructor: bool,
        this_mode: ThisMode,
        body: Rc<StatementList>,
        params: Vec<FormalParameter>,
        environment: Environment,
    },
}

/// The constructor flag of a callable.
pub open spec fn constructor_flag(f: &Function) -> bool {
    match f {
        Function::Native { constructor, .. } => *constructor,
        Function::Closure { constructor, .. } => *constructor,
        Function::Ordinary { constructor, .. } => *constructor,
    }
}

impl Function {
    /// Returns true if the function object is a constructor.
    pub fn is_constructor(&self) -> (r: bool)
        ensures
            r == constructor_flag(self),
    {
        match self {
            Function::Native { constructor, .. } => *constructor,
            Function::Closure { constructor, .. } => *constructor,
            Function::Ordinary { constructor, .. } => *constructor,
        }
    }

    /// A native closure whose captured state starts as `slots`.
    pub fn closure(function: ClosureFunction, constructor: bool, slots: Vec<i64>) -> (r: Function)
        ensures
            r matches Function::Closure { function: f, constructor: c, .. } && f == function && c
                == constructor,
    {
        Function::Closure { function, constructor, captures: Captures::new(slots) }
    }
}

/// A bound wrapper: calls its target with a fixed receiver and with fixed
/// arguments before those of the call.
pub struct BoundFunction {
    target_function: JsObject,
    this: JsValue,
    args: Vec<JsValue>,
}

impl BoundFunction {
    pub closed spec fn target_spec(&self) -> JsObject {
        self.target_function
    }

    pub closed spec fn this_spec(&self) -> JsValue {
        self.this
    }

    pub closed spec fn args_spec(&self) -> Seq<JsValue> {
        self.args@
    }

    /// The wrapper's parts, as given.
    pub fn new(target_function: JsObject, this: JsValue, args: Vec<JsValue>) -> (r: BoundFunction)
        ensures
            r.target_spec() == target_function,
            r.this_spec() == this,
            r.args_spec() == args@,
    {
        BoundFunction { target_function, this, args }
    }

    /// Get a reference to the bound function's this.
    pub fn this(&self) -> (r: &JsValue)
        ensures
            *r == self.this_spec(),
    {
        &self.this
    }

    /// Get a reference to the bound function's target function.
    pub fn target_function(&self) -> (r: &JsObject)
        ensures
            *r == self.target_spec(),
    {
        &self.target_function
    }

    /// Get a reference to the bound function's args.
    pub fn args(&self) -> (r: &[JsValue])
        ensures
            r@ == self.args_spec(),
    {
        self.args.as_slice()
    }

    /// The stored arguments followed by `extra`.
    pub fn prepend_args(&self, extra: &[JsValue]) -> (r: Vec<JsValue>)
        ensures
            r@ == self.args_spec() + extra@,
    {
        let mut r = copy_values(self.args.as_slice());
        let mut tail = copy_values(extra);
        r.append(&mut tail);
        r
    }
}

} // verus!
