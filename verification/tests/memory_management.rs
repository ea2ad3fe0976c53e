use objc_extras::llil::{BinaryExpression, Expression, Instruction, InstructionRef, LlilInstruction, Register};
use objc_extras::remove_memory_management::{
    action, ignorable_memory_management_function_names, is_call_to_ignorable_memory_management_function,
    Edit,
};

const LR: Register = Register::Arch(30);

fn at(address: u64, instruction: Instruction) -> LlilInstruction {
    LlilInstruction { address, instruction }
}

fn symbol_name_at(address: u64) -> Option<Vec<u8>> {
    let name: &[u8] = match address {
        0x10 => b"_objc_release",
        0x20 => b"_objc_autorelease",
        0x30 => b"j__objc_retain",
        0x40 => b"_objc_msgSend",
        0x50 => b"_objc_retainAutoreleasedReturnValue",
        _ => return None,
    };
    Some(name.to_vec())
}

fn instruction_index_at(address: u64) -> Option<usize> {
    match address {
        0x108 => Some(2),
        _ => None,
    }
}

fn goto(address: u64) -> Instruction {
    Instruction::Goto(InstructionRef { index: 99, address })
}

#[test]
fn recognises_calls_to_memory_management_functions() {
    let s = &symbol_name_at;
    assert!(is_call_to_ignorable_memory_management_function(s, &Instruction::Call(Expression::ConstPtr(0x10))));
    assert!(is_call_to_ignorable_memory_management_function(s, &Instruction::TailCall(Expression::ConstPtr(0x20))));
    assert!(is_call_to_ignorable_memory_management_function(s, &goto(0x30)));
    assert!(!is_call_to_ignorable_memory_management_function(s, &Instruction::Call(Expression::ConstPtr(0x40))));
    assert!(!is_call_to_ignorable_memory_management_function(s, &Instruction::Call(Expression::ConstPtr(0x60))));
    assert!(!is_call_to_ignorable_memory_management_function(s, &Instruction::Call(Expression::Const(0x10))));
    assert!(!is_call_to_ignorable_memory_management_function(s, &Instruction::Jump(Expression::ConstPtr(0x10))));
    assert!(!is_call_to_ignorable_memory_management_function(s, &Instruction::Unknown));
}

#[test]
fn a_call_becomes_a_no_op() {
    let instrs = vec![
        at(0x100, Instruction::SetReg(Register::Arch(0), Expression::Reg(Register::Arch(1)))),
        at(0x104, Instruction::Call(Expression::ConstPtr(0x10))),
        at(0x108, Instruction::Call(Expression::ConstPtr(0x40))),
    ];
    let plan = action(&instrs, Some(LR), &symbol_name_at, &instruction_index_at);
    assert_eq!(plan.edits, vec![Edit::Nop { index: 1, address: 0x104 }, Edit::Tag { address: 0x104 }]);
    assert!(plan.regenerate_ssa_form);
}

#[test]
fn a_tail_call_becomes_a_return() {
    let instrs = vec![
        at(0x100, Instruction::Call(Expression::ConstPtr(0x50))),
        at(0x104, Instruction::TailCall(Expression::ConstPtr(0x20))),
    ];
    let plan = action(&instrs, Some(LR), &symbol_name_at, &instruction_index_at);
    assert_eq!(
        plan.edits,
        vec![
            Edit::Nop { index: 0, address: 0x100 },
            Edit::Tag { address: 0x100 },
            Edit::ReturnViaLinkRegister { index: 1, address: 0x104 },
            Edit::Tag { address: 0x104 },
        ]
    );
}

#[test]
fn a_goto_that_opens_the_function_becomes_a_return() {
    let instrs = vec![at(0x100, goto(0x30))];
    let plan = action(&instrs, Some(LR), &symbol_name_at, &instruction_index_at);
    assert_eq!(plan.edits, vec![Edit::ReturnViaLinkRegister { index: 0, address: 0x100 }, Edit::Tag { address: 0x100 }]);
    assert!(plan.regenerate_ssa_form);
}

#[test]
fn an_inlined_stub_call_jumps_to_the_next_instruction() {
    let instrs = vec![
        at(0x100, Instruction::SetReg(LR, Expression::ConstPtr(0x108))),
        at(0x104, goto(0x30)),
        at(0x108, Instruction::Unknown),
    ];
    let plan = action(&instrs, Some(LR), &symbol_name_at, &instruction_index_at);
    assert_eq!(
        plan.edits,
        vec![
            Edit::Nop { index: 0, address: 0x100 },
            Edit::Goto { index: 1, address: 0x104, target_index: 2 },
            Edit::Tag { address: 0x104 },
        ]
    );
}

#[test]
fn an_inlined_stub_call_of_another_shape_is_left_alone() {
    // The previous instruction sets another register.
    let other_register = vec![
        at(0x100, Instruction::SetReg(Register::Arch(0), Expression::ConstPtr(0x108))),
        at(0x104, goto(0x30)),
    ];
    // The link register is set to something that is not a constant pointer.
    let not_constant = vec![
        at(0x100, Instruction::SetReg(LR, Expression::Xor(Box::new(BinaryExpression(Expression::Const(1), Expression::Const(2)))))),
        at(0x104, goto(0x30)),
    ];
    // The return address is not an instruction of the function.
    let no_instruction = vec![
        at(0x100, Instruction::SetReg(LR, Expression::ConstPtr(0x200))),
        at(0x104, goto(0x30)),
    ];
    for instrs in [other_register, not_constant, no_instruction] {
        let plan = action(&instrs, Some(LR), &symbol_name_at, &instruction_index_at);
        assert!(plan.edits.is_empty());
        assert!(!plan.regenerate_ssa_form);
    }
}

#[test]
fn nothing_changes_without_a_link_register() {
    let instrs = vec![at(0x104, Instruction::Call(Expression::ConstPtr(0x10)))];
    let plan = action(&instrs, None, &symbol_name_at, &instruction_index_at);
    assert!(plan.edits.is_empty());
    assert!(!plan.regenerate_ssa_form);
}

#[test]
fn other_calls_and_empty_functions_are_left_alone() {
    let instrs = vec![
        at(0x100, Instruction::Call(Expression::ConstPtr(0x40))),
        at(0x104, Instruction::If(Expression::CmpE(Box::new(BinaryExpression(Expression::Reg(LR), Expression::Const(0)))), InstructionRef { index: 0, address: 0x100 }, InstructionRef { index: 1, address: 0x104 })),
        at(0x108, goto(0x40)),
    ];
    let plan = action(&instrs, Some(LR), &symbol_name_at, &instruction_index_at);
    assert!(plan.edits.is_empty());
    let plan = action(&vec![], Some(LR), &symbol_name_at, &instruction_index_at);
    assert!(plan.edits.is_empty());
    assert!(!plan.regenerate_ssa_form);
}

#[test]
fn ignorable_function_list() {
    let names = ignorable_memory_management_function_names();
    assert_eq!(names.len(), 18);
    assert!(names.contains(&&b"_objc_unsafeClaimAutoreleasedReturnValue"[..]));
    assert!(names.contains(&&b"j__objc_retainBlock"[..]));
}
