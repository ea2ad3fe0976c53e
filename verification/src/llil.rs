//! A plain-value model of Binary Ninja's low level IL, shaped for pattern matching: the
//! operations that the passes look at are spelled out, everything else is `Unknown`.
use vstd::prelude::*;

verus! {

/// A register of the low level IL.
#[derive(PartialEq, Eq, Structural, Clone, Copy, Debug)]
pub enum Register {
    /// An architecture register, by its id.
    Arch(u32),
    /// A temporary register of the IL, by its index.
    Temp(u32),
}

/// Another instruction of the same function that an instruction refers to.
#[derive(PartialEq, Eq, Structural, Clone, Copy, Debug)]
pub struct InstructionRef {
    pub index: usize,
    pub address: u64,
}

/// A low level IL instruction.
#[derive(Debug)]
pub enum Instruction {
    If(Expression, InstructionRef, InstructionRef),
    SetReg(Register, Expression),
    Call(Expression),
    TailCall(Expression),
    Goto(InstructionRef),
    Jump(Expression),
    Unknown,
}

/// The two operands of a binary operation.
#[derive(Debug)]
pub struct BinaryExpression(pub Expression, pub Expression);

/// A low level IL expression.
#[derive(Debug)]
pub enum Expression {
    And(Box<BinaryExpression>),
    Xor(Box<BinaryExpression>),
    Lsl(Box<BinaryExpression>),
    CmpE(Box<BinaryExpression>),
    Reg(Register),
    Const(u64),
    ConstPtr(u64),
    Unknown,
}

/// An instruction of a function, with its address.
#[derive(Debug)]
pub struct LlilInstruction {
    pub address: u64,
    pub instruction: Instruction,
}

} // verus!
