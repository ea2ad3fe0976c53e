//! The analysis passes ask the binary database questions (which symbol stands at an
//! address, what a variable was assigned, ...).  They take the answering functions as
//! closures.  Their contracts are stated against a model of each closure: any spec
//! function that gives, for every question, the answer the closure gives.  A closure
//! that always answers a question the same way has exactly one such model, and the
//! contracts then pin the passes' results down.
use vstd::prelude::*;

use crate::mlil::{MlilInstruction, RegisterValue, SsaVariable, Variable};
use crate::types::VariableType;

verus! {

/// `model` gives every answer that `f` can give: for each question `q`, any result of
/// `f(q)` equals `model(q)`.
pub open spec fn answers<A, R, F: Fn(A) -> R>(f: F, model: spec_fn(A) -> R) -> bool {
    forall|q: A, r: R| #[trigger] call_ensures(f, (q,), r) ==> r == model(q)
}

/// As `answers`, for a closure that is asked by text: the model is keyed by the text's
/// characters.
pub open spec fn answers_by_text<R, F: Fn(&str) -> R>(f: F, model: spec_fn(Seq<char>) -> R) -> bool {
    forall|q: &str, r: R| #[trigger] call_ensures(f, (q,), r) ==> r == model(q@)
}

/// `f` can be asked any question.
pub open spec fn total<A, R, F: Fn(A) -> R>(f: F) -> bool {
    forall|q: A| call_requires(f, (q,))
}

/// `f` can be asked about any text.
pub open spec fn total_by_text<R, F: Fn(&str) -> R>(f: F) -> bool {
    forall|q: &str| call_requires(f, (q,))
}

/// The bytes of an optional byte vector.
pub open spec fn opt_bytes(o: Option<Vec<u8>>) -> Option<Seq<u8>> {
    match o {
        Some(v) => Some(v@),
        None => None,
    }
}

/// The bytes of an optional byte slice.
pub open spec fn opt_slice(o: Option<&[u8]>) -> Option<Seq<u8>> {
    match o {
        Some(v) => Some(v@),
        None => None,
    }
}

} // verus!

verus! {

/// The questions that the medium level IL passes ask of the binary database, one closure
/// each:
/// - `function_name_at`: the name of the function that starts at an address;
/// - `symbol_name_at`: the full name of the symbol at an address;
/// - `ssa_variable_value`: what data flow analysis determined for an SSA variable;
/// - `ssa_variable_definition`: the instruction that defines an SSA variable;
/// - `var_definitions`: the instructions that define a (non-SSA) variable;
/// - `type_by_name`: the type with a given name;
/// - `variable_type`: the type of a variable.
pub struct Lookups<N, S, V, D, R, T, Y> {
    pub function_name_at: N,
    pub symbol_name_at: S,
    pub ssa_variable_value: V,
    pub ssa_variable_definition: D,
    pub var_definitions: R,
    pub type_by_name: T,
    pub variable_type: Y,
}

/// A model of `Lookups`: a spec function per question.
pub struct LookupModel<H> {
    pub function_name_at: spec_fn(u64) -> Option<Vec<u8>>,
    pub symbol_name_at: spec_fn(u64) -> Option<Vec<u8>>,
    pub ssa_variable_value: spec_fn(SsaVariable) -> RegisterValue,
    pub ssa_variable_definition: spec_fn(SsaVariable) -> Option<MlilInstruction>,
    pub var_definitions: spec_fn(Variable) -> Vec<MlilInstruction>,
    pub type_by_name: spec_fn(Seq<char>) -> Option<H>,
    pub variable_type: spec_fn(Variable) -> Option<VariableType<H>>,
}

impl<N, S, V, D, R, T, Y> Lookups<N, S, V, D, R, T, Y> {
    /// Every answer of every closure is the model's.
    pub open spec fn answered_by<H>(&self, m: LookupModel<H>) -> bool where
        N: Fn(u64) -> Option<Vec<u8>>,
        S: Fn(u64) -> Option<Vec<u8>>,
        V: Fn(SsaVariable) -> RegisterValue,
        D: Fn(SsaVariable) -> Option<MlilInstruction>,
        R: Fn(Variable) -> Vec<MlilInstruction>,
        T: Fn(&str) -> Option<H>,
        Y: Fn(Variable) -> Option<VariableType<H>>,
    {
        &&& answers(self.function_name_at, m.function_name_at)
        &&& answers(self.symbol_name_at, m.symbol_name_at)
        &&& answers(self.ssa_variable_value, m.ssa_variable_value)
        &&& answers(self.ssa_variable_definition, m.ssa_variable_definition)
        &&& answers(self.var_definitions, m.var_definitions)
        &&& answers_by_text(self.type_by_name, m.type_by_name)
        &&& answers(self.variable_type, m.variable_type)
    }

    /// Every closure can be asked every question.
    pub open spec fn total<H>(&self) -> bool where
        N: Fn(u64) -> Option<Vec<u8>>,
        S: Fn(u64) -> Option<Vec<u8>>,
        V: Fn(SsaVariable) -> RegisterValue,
        D: Fn(SsaVariable) -> Option<MlilInstruction>,
        R: Fn(Variable) -> Vec<MlilInstruction>,
        T: Fn(&str) -> Option<H>,
        Y: Fn(Variable) -> Option<VariableType<H>>,
    {
        &&& total(self.function_name_at)
        &&& total(self.symbol_name_at)
        &&& total(self.ssa_variable_value)
        &&& total(self.ssa_variable_definition)
        &&& total(self.var_definitions)
        &&& total_by_text(self.type_by_name)
        &&& total(self.variable_type)
    }
}

} // verus!
