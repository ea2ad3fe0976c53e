use objc_extras::lookup::Lookups;
use objc_extras::mlil::{
    CallSsa, MlilInstruction, MlilInstructionKind, RegisterValue, RegisterValueType, SsaVariable,
    Variable, VariableSourceType,
};
use objc_extras::type_propagation::{alloc_init, msg_send_init, super_init};
use objc_extras::type_propagation::alloc_init::ssa_variable_value_or_loaded_pointer;
use objc_extras::types::{PointeeType, ResolvedType, TypeClass, VariableType};
use objc_extras::util::{
    match_call_to_function_named, match_constant_pointer_or_load_of_constant_pointer,
    ssa_variable_value_or_load_of_constant_pointer, CallTypeBase, ReturnType,
};

fn var(index: u32) -> Variable {
    Variable { source_type: VariableSourceType::Register, index, storage: index as i64 }
}

fn ssa(index: u32) -> SsaVariable {
    SsaVariable { variable: var(index), version: 1 }
}

fn at(address: u64, kind: MlilInstructionKind) -> MlilInstruction {
    MlilInstruction { address, kind }
}

fn const_ptr(value: u64) -> MlilInstruction {
    at(0, MlilInstructionKind::ConstPtr(value))
}

fn var_ssa(index: u32) -> MlilInstruction {
    at(0, MlilInstructionKind::VarSsa(ssa(index)))
}

fn call(address: u64, target: u64, params: Vec<MlilInstruction>) -> MlilInstruction {
    at(address, MlilInstructionKind::CallSsa(CallSsa { dest: Box::new(const_ptr(target)), params }))
}

fn tail_call(address: u64, target: u64, params: Vec<MlilInstruction>) -> MlilInstruction {
    at(address, MlilInstructionKind::TailcallSsa(CallSsa { dest: Box::new(const_ptr(target)), params }))
}

fn function_name_at(address: u64) -> Option<Vec<u8>> {
    let name: &[u8] = match address {
        0x1000 => b"_objc_alloc_init",
        0x1001 => b"j__objc_opt_new",
        0x1100 => b"_objc_msgSendSuper2",
        0x1200 => b"_objc_msgSend",
        0x1300 => b"_objc_retain",
        _ => return None,
    };
    Some(name.to_vec())
}

fn symbol_name_at(address: u64) -> Option<Vec<u8>> {
    let name: &[u8] = match address {
        0x2000 => b"_OBJC_CLASS_$_NSString",
        0x2001 => b"clsRef_NSArray",
        0x2002 => b"cls_Broken\xff",
        0x2003 => b"NotAClass",
        0x2004 => b"cls_Unknown",
        0x4000 => b"sel_init",
        0x4001 => b"sel_initWithFrame:",
        0x4002 => b"sel_dealloc",
        0x5000 => b"_OBJC_CLASS_$_MyBase",
        0x5001 => b"_OBJC_CLASS_$_Other",
        _ => return None,
    };
    Some(name.to_vec())
}

fn ssa_variable_value(v: SsaVariable) -> RegisterValue {
    match v.variable.index {
        // Data flow analysis knows the class pointer.
        10 => RegisterValue { state: RegisterValueType::ConstantPointerValue, value: 0x2000 },
        // A constant that is not a pointer.
        12 => RegisterValue { state: RegisterValueType::Other, value: 0x2000 },
        _ => RegisterValue { state: RegisterValueType::UndeterminedValue, value: 0 },
    }
}

fn ssa_variable_definition(v: SsaVariable) -> Option<MlilInstruction> {
    match v.variable.index {
        // x11 = [__objc_classrefs entry]
        11 => Some(at(0x600, MlilInstructionKind::SetVarSsa {
            dest: v,
            src: Box::new(at(0x600, MlilInstructionKind::LoadSsa { src: Box::new(const_ptr(0x2001)) })),
        })),
        // x13 = 0x2000 (not a load)
        13 => Some(at(0x601, MlilInstructionKind::SetVarSsa { dest: v, src: Box::new(const_ptr(0x2000)) })),
        // x20 = &super_struct (variable 30); x21 = &other (variable 31); x22 = &none (32)
        20 => Some(at(0x602, MlilInstructionKind::SetVarSsa {
            dest: v,
            src: Box::new(at(0x602, MlilInstructionKind::AddressOf(var(30)))),
        })),
        21 => Some(at(0x603, MlilInstructionKind::SetVarSsa {
            dest: v,
            src: Box::new(at(0x603, MlilInstructionKind::AddressOf(var(31)))),
        })),
        22 => Some(at(0x604, MlilInstructionKind::SetVarSsa {
            dest: v,
            src: Box::new(at(0x604, MlilInstructionKind::AddressOf(var(32)))),
        })),
        // x23 = x1 (not an address)
        23 => Some(at(0x605, MlilInstructionKind::SetVarSsa { dest: v, src: Box::new(var_ssa(1)) })),
        _ => None,
    }
}

fn field_store(offset: u64, src: MlilInstruction) -> MlilInstruction {
    at(0x700, MlilInstructionKind::SetVarAliasedField { dest: ssa(30), offset, src: Box::new(src) })
}

fn var_definitions(v: Variable) -> Vec<MlilInstruction> {
    match v.index {
        // super_struct.receiver = self; super_struct.super_class = MyBase
        30 => vec![field_store(0, var_ssa(1)), field_store(8, const_ptr(0x5000))],
        // two different constants stored into super_class
        31 => vec![field_store(8, const_ptr(0x5000)), field_store(8, const_ptr(0x5001))],
        // super_class set from a variable
        32 => vec![field_store(8, var_ssa(2))],
        _ => vec![],
    }
}

fn type_by_name(name: &str) -> Option<&'static str> {
    match name {
        "NSString" => Some("type NSString"),
        "NSArray" => Some("type NSArray"),
        "MyBase" => Some("type MyBase"),
        "Other" => Some("type Other"),
        "Broken\u{FFFD}" => Some("type Broken?"),
        _ => None,
    }
}

fn named_pointer(handle: &'static str, class: TypeClass, registered: Option<&[u8]>, resolved: Option<Option<&[u8]>>) -> VariableType<&'static str> {
    VariableType {
        handle,
        class: TypeClass::Pointer,
        pointee: Some(PointeeType {
            class,
            registered_name: registered.map(|n| n.to_vec()),
            named_target: resolved.map(|r| ResolvedType { registered_name: r.map(|n| n.to_vec()) }),
        }),
    }
}

fn variable_type(v: Variable) -> Option<VariableType<&'static str>> {
    match v.index {
        // MyView * (through a named type reference)
        40 => Some(named_pointer("MyView *", TypeClass::NamedTypeReference, None, Some(Some(b"MyView")))),
        // struct MyStruct *
        41 => Some(named_pointer("MyStruct *", TypeClass::Structure, Some(b"MyStruct"), None)),
        // id, that is objc_object *
        42 => Some(named_pointer("id", TypeClass::NamedTypeReference, None, Some(Some(b"objc_object")))),
        // not a pointer
        43 => Some(VariableType { handle: "int", class: TypeClass::Other, pointee: None }),
        // pointer to an integer
        44 => Some(named_pointer("int *", TypeClass::Other, None, None)),
        // named type reference that does not resolve
        45 => Some(named_pointer("Missing *", TypeClass::NamedTypeReference, None, None)),
        _ => None,
    }
}

fn lookups() -> Lookups<
    impl Fn(u64) -> Option<Vec<u8>>,
    impl Fn(u64) -> Option<Vec<u8>>,
    impl Fn(SsaVariable) -> RegisterValue,
    impl Fn(SsaVariable) -> Option<MlilInstruction>,
    impl Fn(Variable) -> Vec<MlilInstruction>,
    impl Fn(&str) -> Option<&'static str>,
    impl Fn(Variable) -> Option<VariableType<&'static str>>,
> {
    Lookups {
        function_name_at,
        symbol_name_at,
        ssa_variable_value,
        ssa_variable_definition,
        var_definitions,
        type_by_name,
        variable_type,
    }
}

#[test]
fn matches_calls_and_tail_calls_to_named_functions() {
    let names: Vec<&[u8]> = vec![b"_objc_msgSend"];
    let c = call(0x500, 0x1200, vec![]);
    let m = match_call_to_function_named(&c, &function_name_at, &names).unwrap();
    assert_eq!(m.target, 0x1200);
    assert_eq!(m.instr.address, 0x500);
    let t = tail_call(0x504, 0x1200, vec![]);
    assert_eq!(match_call_to_function_named(&t, &function_name_at, &names).unwrap().target, 0x1200);
    // A call to another function, to no function, or not to a constant.
    assert!(match_call_to_function_named(&call(0x508, 0x1000, vec![]), &function_name_at, &names).is_none());
    assert!(match_call_to_function_named(&call(0x508, 0x9999, vec![]), &function_name_at, &names).is_none());
    let indirect = at(0x50c, MlilInstructionKind::CallSsa(CallSsa { dest: Box::new(var_ssa(1)), params: vec![] }));
    assert!(match_call_to_function_named(&indirect, &function_name_at, &names).is_none());
    assert!(match_call_to_function_named(&const_ptr(0x1200), &function_name_at, &names).is_none());
}

#[test]
fn constant_pointers_and_loads_of_constant_pointers() {
    let value = &ssa_variable_value;
    let def = &ssa_variable_definition;
    assert_eq!(match_constant_pointer_or_load_of_constant_pointer(&const_ptr(0x42), value, def), Some(0x42));
    assert_eq!(match_constant_pointer_or_load_of_constant_pointer(&var_ssa(10), value, def), Some(0x2000));
    assert_eq!(match_constant_pointer_or_load_of_constant_pointer(&var_ssa(11), value, def), Some(0x2001));
    assert_eq!(match_constant_pointer_or_load_of_constant_pointer(&var_ssa(12), value, def), None);
    assert_eq!(match_constant_pointer_or_load_of_constant_pointer(&var_ssa(13), value, def), None);
    assert_eq!(match_constant_pointer_or_load_of_constant_pointer(&var_ssa(99), value, def), None);
    assert_eq!(match_constant_pointer_or_load_of_constant_pointer(&at(0, MlilInstructionKind::Other), value, def), None);
    assert_eq!(ssa_variable_value_or_load_of_constant_pointer(ssa(11), value, def), Some(0x2001));
}

#[test]
fn alloc_init_call_with_a_fixed_class_returns_that_class() {
    let l = lookups();
    let a = alloc_init::process_instruction(&call(0x500, 0x1000, vec![const_ptr(0x2000)]), &l).unwrap();
    assert_eq!(a.address, 0x500);
    assert_eq!(a.target, 0x1000);
    assert_eq!(a.return_type, ReturnType::PointerTo("type NSString"));
    assert_eq!(a.base, CallTypeBase::TargetFunctionType);
    assert_eq!(a.confidence, 96);
    assert_eq!(a.tag, "Adjusted return type of alloc / init call");
}

#[test]
fn alloc_init_through_class_references() {
    let l = lookups();
    let a = alloc_init::process_instruction(&tail_call(0x510, 0x1001, vec![var_ssa(11)]), &l).unwrap();
    assert_eq!(a.return_type, ReturnType::PointerTo("type NSArray"));
    assert_eq!(a.target, 0x1001);
    let b = alloc_init::process_instruction(&call(0x514, 0x1000, vec![var_ssa(10)]), &l).unwrap();
    assert_eq!(b.return_type, ReturnType::PointerTo("type NSString"));
}

#[test]
fn alloc_init_class_name_is_decoded_lossily() {
    let l = lookups();
    let a = alloc_init::process_instruction(&call(0x500, 0x1000, vec![const_ptr(0x2002)]), &l).unwrap();
    assert_eq!(a.return_type, ReturnType::PointerTo("type Broken?"));
}

#[test]
fn alloc_init_leaves_other_calls_alone() {
    let l = lookups();
    // Not an allocation function.
    assert!(alloc_init::process_instruction(&call(0x500, 0x1300, vec![const_ptr(0x2000)]), &l).is_none());
    // Not exactly one parameter.
    assert!(alloc_init::process_instruction(&call(0x500, 0x1000, vec![]), &l).is_none());
    assert!(alloc_init::process_instruction(&call(0x500, 0x1000, vec![const_ptr(0x2000), const_ptr(0)]), &l).is_none());
    // The parameter is not a class symbol, has no symbol, names an unknown type.
    assert!(alloc_init::process_instruction(&call(0x500, 0x1000, vec![const_ptr(0x2003)]), &l).is_none());
    assert!(alloc_init::process_instruction(&call(0x500, 0x1000, vec![const_ptr(0x9000)]), &l).is_none());
    assert!(alloc_init::process_instruction(&call(0x500, 0x1000, vec![const_ptr(0x2004)]), &l).is_none());
    // The parameter's value is unknown.
    assert!(alloc_init::process_instruction(&call(0x500, 0x1000, vec![var_ssa(13)]), &l).is_none());
}

#[test]
fn alloc_init_action_adjusts_each_matching_call_in_order() {
    let l = lookups();
    let instrs = vec![
        call(0x500, 0x1000, vec![const_ptr(0x2000)]),
        call(0x504, 0x1300, vec![var_ssa(1)]),
        at(0x508, MlilInstructionKind::Other),
        call(0x50c, 0x1001, vec![var_ssa(11)]),
    ];
    let adjustments = alloc_init::action(&instrs, &l);
    assert_eq!(adjustments.len(), 2);
    assert_eq!(adjustments[0].address, 0x500);
    assert_eq!(adjustments[1].address, 0x50c);
    assert_eq!(adjustments[1].return_type, ReturnType::PointerTo("type NSArray"));
}

fn super_call(address: u64, super_param: MlilInstruction, selector: u64) -> MlilInstruction {
    call(address, 0x1100, vec![super_param, const_ptr(selector)])
}

#[test]
fn super_init_returns_the_superclass() {
    let l = lookups();
    let a = super_init::process_instruction(&super_call(0x800, var_ssa(20), 0x4000), &l).unwrap();
    assert_eq!(a.address, 0x800);
    assert_eq!(a.target, 0x1100);
    assert_eq!(a.return_type, ReturnType::PointerTo("type MyBase"));
    assert_eq!(a.base, CallTypeBase::ExistingAdjustmentOrTargetFunctionType);
    assert_eq!(a.confidence, 192);
    assert_eq!(a.tag, "Adjusted return type of super init call");
    let b = super_init::process_instruction(&super_call(0x804, var_ssa(20), 0x4001), &l).unwrap();
    assert_eq!(b.return_type, ReturnType::PointerTo("type MyBase"));
}

#[test]
fn super_init_needs_an_init_selector() {
    let l = lookups();
    assert!(super_init::process_instruction(&super_call(0x800, var_ssa(20), 0x4002), &l).is_none());
    assert!(super_init::process_instruction(&super_call(0x800, var_ssa(20), 0x9999), &l).is_none());
    assert!(super_init::process_instruction(&call(0x800, 0x1100, vec![var_ssa(20)]), &l).is_none());
}

#[test]
fn super_init_needs_exactly_one_constant_superclass() {
    let l = lookups();
    // Two constants.
    assert!(super_init::process_instruction(&super_call(0x800, var_ssa(21), 0x4000), &l).is_none());
    // No constant.
    assert!(super_init::process_instruction(&super_call(0x800, var_ssa(22), 0x4000), &l).is_none());
    // The parameter is not set to an address; has no definition; is not a variable.
    assert!(super_init::process_instruction(&super_call(0x800, var_ssa(23), 0x4000), &l).is_none());
    assert!(super_init::process_instruction(&super_call(0x800, var_ssa(24), 0x4000), &l).is_none());
    assert!(super_init::process_instruction(&super_call(0x800, const_ptr(0), 0x4000), &l).is_none());
    // Not a call to objc_msgSendSuper.
    assert!(super_init::process_instruction(&call(0x800, 0x1200, vec![var_ssa(20), const_ptr(0x4000)]), &l).is_none());
}

#[test]
fn super_init_action_over_a_function() {
    let l = lookups();
    let instrs = vec![super_call(0x800, var_ssa(21), 0x4000), super_call(0x804, var_ssa(20), 0x4000)];
    let adjustments = super_init::action(&instrs, &l);
    assert_eq!(adjustments.len(), 1);
    assert_eq!(adjustments[0].address, 0x804);
}

fn send(address: u64, receiver: u32, selector: u64) -> MlilInstruction {
    call(address, 0x1200, vec![var_ssa(receiver), const_ptr(selector)])
}

#[test]
fn init_message_send_returns_the_receiver_type() {
    let l = lookups();
    let a = msg_send_init::process_instruction(&send(0x900, 40, 0x4001), &l).unwrap();
    assert_eq!(a.address, 0x900);
    assert_eq!(a.target, 0x1200);
    assert_eq!(a.return_type, ReturnType::Exactly("MyView *"));
    assert_eq!(a.base, CallTypeBase::ExistingAdjustmentOrTargetFunctionType);
    assert_eq!(a.confidence, 192);
    assert_eq!(a.tag, "Adjusted return type of -init call");
    let b = msg_send_init::process_instruction(&send(0x904, 41, 0x4000), &l).unwrap();
    assert_eq!(b.return_type, ReturnType::Exactly("MyStruct *"));
}

#[test]
fn init_message_send_leaves_id_and_unknown_receivers_alone() {
    let l = lookups();
    for receiver in [42, 43, 44, 45, 46] {
        assert!(msg_send_init::process_instruction(&send(0x900, receiver, 0x4001), &l).is_none());
    }
    // The receiver is not a variable.
    let c = call(0x900, 0x1200, vec![const_ptr(0), const_ptr(0x4001)]);
    assert!(msg_send_init::process_instruction(&c, &l).is_none());
}

#[test]
fn init_message_send_needs_an_init_selector() {
    let l = lookups();
    assert!(msg_send_init::process_instruction(&send(0x900, 40, 0x4002), &l).is_none());
    assert!(msg_send_init::process_instruction(&call(0x900, 0x1200, vec![var_ssa(40)]), &l).is_none());
    assert!(msg_send_init::process_instruction(&call(0x900, 0x1100, vec![var_ssa(40), const_ptr(0x4001)]), &l).is_none());
}

#[test]
fn init_message_send_action_over_a_function() {
    let l = lookups();
    let instrs = vec![send(0x900, 42, 0x4001), send(0x904, 40, 0x4001), send(0x908, 41, 0x4000)];
    let adjustments = msg_send_init::action(&instrs, &l);
    assert_eq!(adjustments.len(), 2);
    assert_eq!(adjustments[0].return_type, ReturnType::Exactly("MyView *"));
    assert_eq!(adjustments[1].return_type, ReturnType::Exactly("MyStruct *"));
}

#[test]
fn function_name_lists() {
    assert_eq!(alloc_init::alloc_init_function_names().len(), 10);
    assert!(alloc_init::alloc_init_function_names().contains(&&b"_objc_allocWithZone"[..]));
    assert_eq!(super_init::objc_msg_send_super_function_names().len(), 4);
    assert_eq!(msg_send_init::objc_msg_send_function_names(), vec![&b"_objc_msgSend"[..], &b"j__objc_msgSend"[..]]);
}

#[test]
fn deciding_block_by_block_is_deciding_over_the_function() {
    let l = lookups();
    let first = vec![call(0x500, 0x1000, vec![const_ptr(0x2000)]), send(0x504, 40, 0x4001)];
    let second = vec![super_call(0x508, var_ssa(20), 0x4000), call(0x50c, 0x1001, vec![var_ssa(11)])];
    let mut whole = vec![
        call(0x500, 0x1000, vec![const_ptr(0x2000)]),
        send(0x504, 40, 0x4001),
        super_call(0x508, var_ssa(20), 0x4000),
        call(0x50c, 0x1001, vec![var_ssa(11)]),
    ];
    let mut by_blocks = alloc_init::action(&first, &l);
    by_blocks.extend(alloc_init::action(&second, &l));
    assert_eq!(alloc_init::action(&whole, &l), by_blocks);
    assert_eq!(by_blocks.len(), 2);
    whole.truncate(3);
    assert_eq!(super_init::action(&whole, &l).len(), 1);
    assert_eq!(msg_send_init::action(&whole, &l).len(), 1);
}

#[test]
fn both_constant_pointer_lookups_agree() {
    let value = &ssa_variable_value;
    let def = &ssa_variable_definition;
    for index in [1, 10, 11, 12, 13, 20, 99] {
        assert_eq!(
            ssa_variable_value_or_loaded_pointer(ssa(index), value, def),
            ssa_variable_value_or_load_of_constant_pointer(ssa(index), value, def)
        );
    }
    assert_eq!(ssa_variable_value_or_loaded_pointer(ssa(11), value, def), Some(0x2001));
}

#[test]
fn more_names_never_lose_a_match_and_no_names_match_nothing() {
    let few: Vec<&[u8]> = vec![b"_objc_msgSend"];
    let more: Vec<&[u8]> = vec![b"_objc_alloc_init", b"_objc_msgSend", b"j__objc_msgSend"];
    let c = call(0x500, 0x1200, vec![]);
    assert_eq!(match_call_to_function_named(&c, &function_name_at, &few).unwrap().target, 0x1200);
    assert_eq!(match_call_to_function_named(&c, &function_name_at, &more).unwrap().target, 0x1200);
    assert!(match_call_to_function_named(&c, &function_name_at, &[]).is_none());
}

#[test]
fn arguments_after_the_selector_do_not_matter() {
    let l = lookups();
    let plain = super_call(0x800, var_ssa(20), 0x4000);
    let extra = call(0x800, 0x1100, vec![var_ssa(20), const_ptr(0x4000), const_ptr(7), var_ssa(3)]);
    assert_eq!(
        super_init::process_instruction(&plain, &l).unwrap().return_type,
        super_init::process_instruction(&extra, &l).unwrap().return_type
    );
    let send_extra = call(0x900, 0x1200, vec![var_ssa(40), const_ptr(0x4001), const_ptr(1)]);
    assert_eq!(
        msg_send_init::process_instruction(&send_extra, &l).unwrap().return_type,
        ReturnType::Exactly("MyView *")
    );
}
