//! Callable values of an ECMAScript runtime: native routines, native closures
//! with shared captured state, interpreted functions and bound wrappers, with
//! the `call`, `apply` and `bind` protocol, function naming and the length
//! derived for bound wrappers.
//!
//! The heap of objects is a [`Context`]. The protocol does not run native
//! code itself: it resolves each call to an [`Invocation`] (which callable,
//! with which receiver and arguments), and the embedding runs it.

pub mod builtins;
pub mod captures;
pub mod function;
pub mod invoke;
pub mod kinds;
pub mod laws;
pub mod naming;
pub mod object;
pub mod source;
pub mod text;
pub mod value;

pub use builtins::{create_list_from_array_like, make_builtin_fn, BuiltInFunctionObject};
pub use captures::{Captures, CapturesRef, CapturesRefMut};
pub use function::{
    BoundFunction, ClosureFunction, Declaration, Environment, FormalParameter, Function,
    NativeFunction, StatementList,
};
pub use invoke::Invocation;
pub use kinds::{ConstructorKind, ThisMode};
pub use naming::{bound_function_length, function_name_of, set_function_name};
pub use object::{Context, Object, ObjectData, Property};
pub use value::{
    IntegerOrInfinity, JsError, JsObject, JsResult, JsSymbol, JsValue, Number, PropertyDescriptor,
    PropertyKey,
};
