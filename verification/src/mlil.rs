//! A plain-value model of the parts of Binary Ninja's lifted medium level IL (SSA form)
//! that the type propagation passes inspect.
use vstd::prelude::*;

verus! {

/// Where a variable lives.
#[derive(PartialEq, Eq, Structural, Clone, Copy, Debug)]
pub enum VariableSourceType {
    Stack,
    Register,
    Flag,
}

/// A (non-SSA) variable of a function.
#[derive(PartialEq, Eq, Structural, Clone, Copy, Debug)]
pub struct Variable {
    pub source_type: VariableSourceType,
    pub index: u32,
    pub storage: i64,
}

/// One version of a variable in SSA form.
#[derive(PartialEq, Eq, Structural, Clone, Copy, Debug)]
pub struct SsaVariable {
    pub variable: Variable,
    pub version: u64,
}

/// The kind of value that data flow analysis determined for a variable.
#[derive(PartialEq, Eq, Structural, Clone, Copy, Debug)]
pub enum RegisterValueType {
    UndeterminedValue,
    ConstantPointerValue,
    /// Any other kind of value (constants, ranges, stack offsets, ...).
    Other,
}

/// The value that data flow analysis determined for a variable.
#[derive(PartialEq, Eq, Structural, Clone, Copy, Debug)]
pub struct RegisterValue {
    pub state: RegisterValueType,
    pub value: i64,
}

/// A lifted instruction, with the address it stands at.
#[derive(Debug)]
pub struct MlilInstruction {
    pub address: u64,
    pub kind: MlilInstructionKind,
}

/// The operands of a call in SSA form.
#[derive(Debug)]
pub struct CallSsa {
    pub dest: Box<MlilInstruction>,
    pub params: Vec<MlilInstruction>,
}

/// The operations that the passes look at; everything else is `Other`.
#[derive(Debug)]
pub enum MlilInstructionKind {
    CallSsa(CallSsa),
    TailcallSsa(CallSsa),
    ConstPtr(u64),
    VarSsa(SsaVariable),
    SetVarSsa { dest: SsaVariable, src: Box<MlilInstruction> },
    LoadSsa { src: Box<MlilInstruction> },
    AddressOf(Variable),
    SetVarAliasedField { dest: SsaVariable, offset: u64, src: Box<MlilInstruction> },
    Other,
}

} // verus!
