use vstd::prelude::*;

verus! {

/// How an interpreted function binds its `this` value.
#[derive(Debug, Clone, Copy, PartialEq, Eq, Structural)]
pub enum ThisMode {
    Lexical,
    Strict,
    Global,
}

impl ThisMode {
    /// Returns `true` if the this mode is `Lexical`.
    pub fn is_lexical(&self) -> (r: bool)
        ensures
            r == (*self is Lexical),
    {
        matches!(self, ThisMode::Lexical)
    }

    /// Returns `true` if the this mode is `Strict`.
    pub fn is_strict(&self) -> (r: bool)
        ensures
            r == (*self is Strict),
    {
        matches!(self, ThisMode::Strict)
    }

    /// Returns `true` if the this mode is `Global`.
    pub fn is_global(&self) -> (r: bool)
        ensures
            r == (*self is Global),
    {
        matches!(self, ThisMode::Global)
    }
}

/// Whether a constructor is a base class constructor or a derived one.
#[derive(Debug, Clone, Copy, PartialEq, Eq, Structural)]
pub enum ConstructorKind {
    Base,
    Derived,
}

impl ConstructorKind {
    /// Returns `true` if the constructor kind is `Base`.
    pub fn is_base(&self) -> (r: bool)
        ensures
            r == (*self is Base),
    {
        matches!(self, ConstructorKind::Base)
    }

    /// Returns `true` if the constructor kind is `Derived`.
    pub fn is_derived(&self) -> (r: bool)
        ensures
            r == (*self is Derived),
    {
        matches!(self, ConstructorKind::Derived)
    }
}

} // verus!
