//! A plain-value summary of the type of a variable, as far as the `-init` return type
//! propagation reads it.
use vstd::prelude::*;

verus! {

/// The class of a type.
#[derive(PartialEq, Eq, Structural, Clone, Copy, Debug)]
pub enum TypeClass {
    Pointer,
    Structure,
    NamedTypeReference,
    /// Any other class (integers, functions, arrays, ...).
    Other,
}

/// The type that a named type reference resolves to in the binary view.
#[derive(Debug)]
pub struct ResolvedType {
    /// The registered name of the resolved type, if it has one.
    pub registered_name: Option<Vec<u8>>,
}

/// The type that a pointer points to.
#[derive(Debug)]
pub struct PointeeType {
    pub class: TypeClass,
    /// The registered name of the pointee, if it has one.
    pub registered_name: Option<Vec<u8>>,
    /// What the pointee resolves to, where it is a named type reference that resolves.
    pub named_target: Option<ResolvedType>,
}

/// The type of a variable: `handle` is the type itself, for the caller to use once a
/// decision is made; the other fields are what the decision reads.
#[derive(Debug)]
pub struct VariableType<H> {
    pub handle: H,
    pub class: TypeClass,
    /// The type the variable's type points to, where it is a pointer with a target.
    pub pointee: Option<PointeeType>,
}

} // verus!
