//! Propagates the return type of `[super init…]`: a call to `objc_msgSendSuper2` whose
//! selector is in the `init` family returns a pointer to the class named in the
//! `objc_super` structure passed to it.
use vstd::prelude::*;
use vstd::string::*;

use crate::lookup::{LookupModel, Lookups};
use crate::mlil::{
    CallSsa, MlilInstruction, MlilInstructionKind, RegisterValue, SsaVariable, Variable,
};
use crate::types::VariableType;
use crate::lookup::opt_bytes;
use crate::util::{
    adjust_return_type_of_call, class_type_at, lemma_class_name_from_each_symbol_form,
    lemma_collect_adjustments_come_from_instructions, lemma_init_family_selectors, lossy_utf8,
    match_call_to_function_named, names_view, sel_init_bytes, selector_is_in_init_family,
    selector_symbol_begins_with_sel_init, spec_adjust_return_type_of_call, spec_call_operands,
    spec_call_target, spec_class_type_at, spec_collect_adjustments,
    spec_match_call_to_function_named, spec_selector_is_in_init_family, stands_at_a_call,
    CallTypeBase, ReturnType, ReturnTypeAdjustment, CALL_TYPE_ADJUSTMENT_CONFIDENCE,
};

verus! {

/// The functions that send a message to the superclass.  The `j_` prefixes are for stub
/// functions in the dyld shared cache, added by Binary Ninja's shared cache workflow.
pub open spec fn objc_msg_send_super_functions() -> Seq<Seq<u8>> {
    seq![
        "_objc_msgSendSuper".spec_bytes(),
        "_objc_msgSendSuper2".spec_bytes(),
        "j__objc_msgSendSuper".spec_bytes(),
        "j__objc_msgSendSuper2".spec_bytes(),
    ]
}

/// The names of `objc_msg_send_super_functions`.
pub fn objc_msg_send_super_function_names() -> (names: Vec<&'static [u8]>)
    ensures
        names_view(names@) == objc_msg_send_super_functions(),
{
    let names = vec![
        "_objc_msgSendSuper".as_bytes(),
        "_objc_msgSendSuper2".as_bytes(),
        "j__objc_msgSendSuper".as_bytes(),
        "j__objc_msgSendSuper2".as_bytes(),
    ];
    assert(names_view(names@) =~= objc_msg_send_super_functions());
    names
}

/// The offset of the `super_class` field in `struct objc_super`.
pub const SUPER_CLASS_FIELD_OFFSET: u64 = 8;

/// The tag placed at adjusted calls.
pub const TAG_DESCRIPTION: &'static str = "Adjusted return type of super init call";

/// The constant that `def` stores into the `super_class` field of a `struct objc_super`,
/// where it stores one.
pub open spec fn super_class_constant(def: MlilInstruction) -> Option<u64> {
    match def.kind {
        MlilInstructionKind::SetVarAliasedField { offset, src, .. } => if offset
            == SUPER_CLASS_FIELD_OFFSET {
            match src.kind {
                MlilInstructionKind::ConstPtr(constant) => Some(constant),
                _ => None,
            }
        } else {
            None
        },
        _ => None,
    }
}

/// The constants that the definitions `defs` store into the `super_class` field, in order.
pub open spec fn super_class_constants(defs: Seq<MlilInstruction>) -> Seq<u64>
    decreases defs.len(),
{
    if defs.len() == 0 {
        seq![]
    } else {
        let earlier = super_class_constants(defs.drop_last());
        match super_class_constant(defs.last()) {
            Some(constant) => earlier.push(constant),
            None => earlier,
        }
    }
}

/// The pointer to the superclass that a `[super …]` call passes: the first parameter is an
/// SSA variable set to the address of a `struct objc_super` variable, and exactly one
/// constant is stored into that structure's `super_class` field.
pub open spec fn spec_super_class_pointer<H>(super_param: MlilInstruction, m: LookupModel<H>) -> Option<u64> {
    match super_param.kind {
        MlilInstructionKind::VarSsa(src) => match (m.ssa_variable_definition)(src) {
            Some(def) => match def.kind {
                MlilInstructionKind::SetVarSsa { src, .. } => match src.kind {
                    MlilInstructionKind::AddressOf(src_var) => {
                        let constants = super_class_constants(((m.var_definitions)(src_var))@);
                        if constants.len() == 1 {
                            Some(constants[0])
                        } else {
                            None
                        }
                    },
                    _ => None,
                },
                _ => None,
            },
            None => None,
        },
        _ => None,
    }
}

/// The class type that a `[super init…]` call returns a pointer to.
pub open spec fn spec_return_type_for_super_call<H>(call: CallSsa, m: LookupModel<H>) -> Option<H> {
    if spec_selector_is_in_init_family(call, m) {
        match spec_super_class_pointer(call.params@[0], m) {
            Some(super_class) => spec_class_type_at(super_class, m),
            None => None,
        }
    } else {
        None
    }
}

/// A `[super init…]` call is read through its first two parameters only, the `objc_super`
/// structure and the selector: calls that agree in these agree in their return type,
/// whatever follows; a call with fewer parameters gets none.
pub proof fn lemma_super_call_reads_super_and_selector<H>(call: CallSsa, other: CallSsa, m: LookupModel<H>)
    requires
        call.params@.len() >= 2,
        other.params@.len() >= 2,
        call.params@[0] == other.params@[0],
        call.params@[1] == other.params@[1],
    ensures
        spec_return_type_for_super_call(call, m) == spec_return_type_for_super_call(other, m),
{
}

/// A call with fewer than two parameters (no selector) gets no return type.
pub proof fn lemma_super_call_needs_a_selector<H>(call: CallSsa, m: LookupModel<H>)
    requires
        call.params@.len() < 2,
    ensures
        spec_return_type_for_super_call(call, m) is None,
{
}

/// A `[super init…]` is adjusted: a call or tail call to a function named
/// `objc_msgSendSuper` or `objc_msgSendSuper2` (or their `j_` stubs), whose selector is a
/// constant pointer to a symbol named `sel_init…`, and whose first parameter is set to the
/// address of a `struct objc_super` into whose `super_class` field exactly one constant is
/// stored, a pointer to a class symbol of a known type, returns a pointer to that type,
/// with confidence 192.
pub proof fn lemma_super_init_calls_are_adjusted<H>(
    instr: MlilInstruction,
    call: CallSsa,
    m: LookupModel<H>,
    target: u64,
    name: &str,
    selector_pointer: u64,
    selector_rest: Seq<u8>,
    super_param: SsaVariable,
    def: MlilInstruction,
    super_struct: Variable,
    super_class: u64,
    prefix: Seq<u8>,
    class_name: Seq<u8>,
    class_type: H,
)
    requires
        instr.kind == MlilInstructionKind::CallSsa(call) || instr.kind == MlilInstructionKind::TailcallSsa(call),
        call.dest.kind == MlilInstructionKind::ConstPtr(target),
        opt_bytes((m.function_name_at)(target)) == Some(name.spec_bytes()),
        seq![
            "_objc_msgSendSuper"@,
            "_objc_msgSendSuper2"@,
            "j__objc_msgSendSuper"@,
            "j__objc_msgSendSuper2"@,
        ].contains(name@),
        call.params@.len() >= 2,
        call.params@[0].kind == MlilInstructionKind::VarSsa(super_param),
        call.params@[1].kind == MlilInstructionKind::ConstPtr(selector_pointer),
        opt_bytes((m.symbol_name_at)(selector_pointer)) == Some(sel_init_bytes() + selector_rest),
        (m.ssa_variable_definition)(super_param) == Some(def),
        def.kind matches MlilInstructionKind::SetVarSsa { src, .. }
            && src.kind == MlilInstructionKind::AddressOf(super_struct),
        super_class_constants(((m.var_definitions)(super_struct))@) == seq![super_class],
        seq!["cls_".spec_bytes(), "clsRef_".spec_bytes(), "_OBJC_CLASS_$_".spec_bytes()].contains(prefix),
        opt_bytes((m.symbol_name_at)(super_class)) == Some(prefix + class_name),
        (m.type_by_name)(lossy_utf8(class_name)) == Some(class_type),
    ensures
        spec_process_instruction(instr, m) == Some(
            ReturnTypeAdjustment {
                address: instr.address,
                target,
                return_type: ReturnType::PointerTo(class_type),
                base: CallTypeBase::ExistingAdjustmentOrTargetFunctionType,
                confidence: 192u8,
                tag: "Adjusted return type of super init call",
            },
        ),
{
    let listed = seq![
            "_objc_msgSendSuper"@,
            "_objc_msgSendSuper2"@,
            "j__objc_msgSendSuper"@,
            "j__objc_msgSendSuper2"@,
        ];
    let k = choose|k: int| 0 <= k < listed.len() && listed[k] == name@;
    assert(objc_msg_send_super_functions()[k] == name.spec_bytes());
    assert(objc_msg_send_super_functions().contains(name.spec_bytes()));
    lemma_class_name_from_each_symbol_form(class_name);
    assert(spec_call_operands(instr) == Some(call));
    let symbol = sel_init_bytes() + selector_rest;
    assert(symbol.subrange(0, 8) =~= sel_init_bytes());
    lemma_init_family_selectors(call, m);
    assert(selector_symbol_begins_with_sel_init(call, m));
}

/// The adjustment made at `instr`, where it is a `[super init…]` call.
pub open spec fn spec_process_instruction<H>(instr: MlilInstruction, m: LookupModel<H>) -> Option<ReturnTypeAdjustment<H>> {
    match spec_match_call_to_function_named(
        instr,
        m.function_name_at,
        objc_msg_send_super_functions(),
    ) {
        Some(target) => match spec_return_type_for_super_call(spec_call_operands(instr).unwrap(), m) {
            Some(class_type) => Some(
                spec_adjust_return_type_of_call(
                    instr.address,
                    target,
                    ReturnType::PointerTo(class_type),
                    TAG_DESCRIPTION,
                ),
            ),
            None => None,
        },
        None => None,
    }
}

/// The adjustments made over the instructions `instrs`, in order.
pub open spec fn spec_action<H>(instrs: Seq<MlilInstruction>, m: LookupModel<H>) -> Seq<ReturnTypeAdjustment<H>> {
    spec_collect_adjustments(instrs, decision(m))
}

/// `spec_process_instruction` as a function of the instruction.
pub open spec fn decision<H>(m: LookupModel<H>) -> spec_fn(MlilInstruction) -> Option<ReturnTypeAdjustment<H>> {
    |instr: MlilInstruction| spec_process_instruction(instr, m)
}

/// Whether `a` is an adjustment of one of the instructions `instrs`.
pub open spec fn is_adjustment_of_some<H>(a: ReturnTypeAdjustment<H>, instrs: Seq<MlilInstruction>, m: LookupModel<H>) -> bool {
    exists|j: int| 0 <= j < instrs.len() && #[trigger] is_adjustment_of(a, instrs[j], m)
}

/// What an adjustment says of the instruction it is made at.
pub open spec fn is_adjustment_of<H>(a: ReturnTypeAdjustment<H>, instr: MlilInstruction, m: LookupModel<H>) -> bool {
    &&& a.address == instr.address
    &&& spec_match_call_to_function_named(instr, m.function_name_at, objc_msg_send_super_functions())
        == Some(a.target)
    &&& spec_selector_is_in_init_family(spec_call_operands(instr).unwrap(), m)
    &&& a.return_type is PointerTo
    &&& a.base == CallTypeBase::ExistingAdjustmentOrTargetFunctionType
    &&& a.confidence == CALL_TYPE_ADJUSTMENT_CONFIDENCE
    &&& a.tag == TAG_DESCRIPTION
}

/// Only `[super init…]` calls are adjusted: every adjustment stands at the address of
/// one of the instructions, a call to a function named as one of the `objc_msgSendSuper`
/// functions whose selector is in the `init` family, whose address it names as its
/// target; the return type becomes a pointer to a class type, with confidence 192.
pub proof fn lemma_only_super_init_calls_are_adjusted<H>(instrs: Seq<MlilInstruction>, m: LookupModel<H>)
    ensures
        forall|k: int| 0 <= k < spec_action(instrs, m).len()
            ==> is_adjustment_of_some(#[trigger] spec_action(instrs, m)[k], instrs, m),
{
    lemma_collect_adjustments_come_from_instructions(instrs, decision(m));
    assert forall|k: int| 0 <= k < spec_action(instrs, m).len()
        implies is_adjustment_of_some(#[trigger] spec_action(instrs, m)[k], instrs, m) by {
        let a = spec_action(instrs, m)[k];
        let j = choose|j: int| 0 <= j < instrs.len() && (decision(m))(instrs[j]) == Some(a);
        assert(spec_process_instruction(instrs[j], m) == Some(a));
        assert(is_adjustment_of(a, instrs[j], m));
    }
}

/// The constants stored into the `super_class` field by the definitions `defs`.
fn collect_super_class_constants(defs: &Vec<MlilInstruction>) -> (constants: Vec<u64>)
    ensures
        constants@ == super_class_constants(defs@),
{
    let mut constants: Vec<u64> = Vec::new();
    let mut i: usize = 0;
    while i < defs.len()
        invariant
            i <= defs@.len(),
            constants@ == super_class_constants(defs@.take(i as int)),
        decreases defs@.len() - i,
    {
        assert(defs@.take(i + 1).drop_last() =~= defs@.take(i as int));
        let def = &defs[i];
        match &def.kind {
            MlilInstructionKind::SetVarAliasedField { offset, src, .. } => {
                if *offset == SUPER_CLASS_FIELD_OFFSET {
                    match &src.kind {
                        MlilInstructionKind::ConstPtr(constant) => constants.push(*constant),
                        _ => {},
                    }
                }
            },
            _ => {},
        }
        i = i + 1;
    }
    assert(defs@.take(defs@.len() as int) =~= defs@);
    constants
}

/// The pointer to the superclass that a `[super …]` call passes in `super_param` (see the
/// spec function of the same name).
fn super_class_pointer<H, N, S, V, D, R, T, Y>(
    super_param: &MlilInstruction,
    lookups: &Lookups<N, S, V, D, R, T, Y>,
) -> (r: Option<u64>) where
    N: Fn(u64) -> Option<Vec<u8>>,
    S: Fn(u64) -> Option<Vec<u8>>,
    V: Fn(SsaVariable) -> RegisterValue,
    D: Fn(SsaVariable) -> Option<MlilInstruction>,
    R: Fn(Variable) -> Vec<MlilInstruction>,
    T: Fn(&str) -> Option<H>,
    Y: Fn(Variable) -> Option<VariableType<H>>,

    requires
        lookups.total::<H>(),
    ensures
        forall|m: LookupModel<H>| #[trigger] lookups.answered_by(m)
            ==> r == spec_super_class_pointer(*super_param, m),
{
    // The parameter is an SSA variable: its definition tells what it was assigned.
    let src = match &super_param.kind {
        MlilInstructionKind::VarSsa(src) => *src,
        _ => return None,
    };
    let def = match (lookups.ssa_variable_definition)(src) {
        Some(def) => def,
        None => return None,
    };
    let src_var = match &def.kind {
        MlilInstructionKind::SetVarSsa { src, .. } => match &src.kind {
            MlilInstructionKind::AddressOf(src_var) => *src_var,
            _ => return None,
        },
        _ => return None,
    };
    // `src_var` is a `struct objc_super`: find the constants assigned to its `super_class`
    // field.  Zero assignments likely mean that the assigned value was not a constant.
    let defs = (lookups.var_definitions)(src_var);
    let constants = collect_super_class_constants(&defs);
    if constants.len() == 1 {
        Some(constants[0])
    } else {
        None
    }
}

/// The class type that the `[super init…]` call `call` returns a pointer to.
pub fn return_type_for_super_call<H, N, S, V, D, R, T, Y>(
    call: &CallSsa,
    lookups: &Lookups<N, S, V, D, R, T, Y>,
) -> (r: Option<H>) where
    N: Fn(u64) -> Option<Vec<u8>>,
    S: Fn(u64) -> Option<Vec<u8>>,
    V: Fn(SsaVariable) -> RegisterValue,
    D: Fn(SsaVariable) -> Option<MlilInstruction>,
    R: Fn(Variable) -> Vec<MlilInstruction>,
    T: Fn(&str) -> Option<H>,
    Y: Fn(Variable) -> Option<VariableType<H>>,

    requires
        lookups.total::<H>(),
    ensures
        call.params@.len() < 2 ==> r is None,
        forall|m: LookupModel<H>| #[trigger] lookups.answered_by(m)
            ==> r == spec_return_type_for_super_call(*call, m),
{
    if !selector_is_in_init_family(call, lookups) {
        return None;
    }
    let super_class = match super_class_pointer(&call.params[0], lookups) {
        Some(p) => p,
        None => return None,
    };
    class_type_at(super_class, lookups)
}

/// The adjustment to make at `instr`, where it is a `[super init…]` call.
pub fn process_instruction<H, N, S, V, D, R, T, Y>(
    instr: &MlilInstruction,
    lookups: &Lookups<N, S, V, D, R, T, Y>,
) -> (r: Option<ReturnTypeAdjustment<H>>) where
    N: Fn(u64) -> Option<Vec<u8>>,
    S: Fn(u64) -> Option<Vec<u8>>,
    V: Fn(SsaVariable) -> RegisterValue,
    D: Fn(SsaVariable) -> Option<MlilInstruction>,
    R: Fn(Variable) -> Vec<MlilInstruction>,
    T: Fn(&str) -> Option<H>,
    Y: Fn(Variable) -> Option<VariableType<H>>,

    requires
        lookups.total::<H>(),
    ensures
        spec_call_target(*instr) is None ==> r is None,
        r matches Some(a) ==> {
            &&& a.address == instr.address
            &&& spec_call_target(*instr) == Some(a.target)
            &&& a.return_type is PointerTo
            &&& a.base == CallTypeBase::ExistingAdjustmentOrTargetFunctionType
            &&& a.confidence == CALL_TYPE_ADJUSTMENT_CONFIDENCE
            &&& a.tag == TAG_DESCRIPTION
        },
        forall|m: LookupModel<H>| #[trigger] lookups.answered_by(m)
            ==> r == spec_process_instruction(*instr, m),
{
    let names = objc_msg_send_super_function_names();
    let call = match match_call_to_function_named(instr, &lookups.function_name_at, names.as_slice()) {
        Some(call) => call,
        None => return None,
    };
    match return_type_for_super_call(call.call, lookups) {
        Some(class_type) => Some(
            adjust_return_type_of_call(&call, ReturnType::PointerTo(class_type), TAG_DESCRIPTION),
        ),
        None => None,
    }
}

/// Only `init`-family selectors are adjusted: a `[super …]` call is adjusted only if its selector
/// is a constant pointer, or a load of one, to a symbol whose name begins with the eight
/// bytes `sel_init`; `[x intValue]`, say, is left alone.
pub proof fn lemma_only_init_selectors_are_adjusted<H>(instr: MlilInstruction, m: LookupModel<H>)
    ensures
        spec_process_instruction(instr, m) is Some ==> (spec_call_operands(instr) matches Some(call)
            && selector_symbol_begins_with_sel_init(call, m)),
{
    if spec_process_instruction(instr, m) is Some {
        lemma_init_family_selectors(spec_call_operands(instr).unwrap(), m);
    }
}

/// The adjustments to make over the instructions of a function, in order.
pub fn action<H, N, S, V, D, R, T, Y>(
    instrs: &Vec<MlilInstruction>,
    lookups: &Lookups<N, S, V, D, R, T, Y>,
) -> (r: Vec<ReturnTypeAdjustment<H>>) where
    N: Fn(u64) -> Option<Vec<u8>>,
    S: Fn(u64) -> Option<Vec<u8>>,
    V: Fn(SsaVariable) -> RegisterValue,
    D: Fn(SsaVariable) -> Option<MlilInstruction>,
    R: Fn(Variable) -> Vec<MlilInstruction>,
    T: Fn(&str) -> Option<H>,
    Y: Fn(Variable) -> Option<VariableType<H>>,

    requires
        lookups.total::<H>(),
    ensures
        r@.len() <= instrs@.len(),
        forall|k: int| 0 <= k < r@.len() ==> stands_at_a_call(#[trigger] r@[k], instrs@),
        forall|m: LookupModel<H>| #[trigger] lookups.answered_by(m)
            ==> r@ == spec_action(instrs@, m),
{
    let mut adjustments: Vec<ReturnTypeAdjustment<H>> = Vec::new();
    let mut i: usize = 0;
    while i < instrs.len()
        invariant
            i <= instrs@.len(),
            lookups.total::<H>(),
            adjustments@.len() <= i,
            forall|k: int| 0 <= k < adjustments@.len() ==> stands_at_a_call(#[trigger] adjustments@[k], instrs@),
            forall|m: LookupModel<H>| #[trigger] lookups.answered_by(m)
                ==> adjustments@ == spec_action(instrs@.take(i as int), m),
        decreases instrs@.len() - i,
    {
        assert(instrs@.take(i + 1).drop_last() =~= instrs@.take(i as int));
        let decided = process_instruction(&instrs[i], lookups);
        match decided {
            Some(adjustment) => {
                assert(stands_at_a_call(adjustment, instrs@)) by {
                    assert(adjustment.address == instrs@[i as int].address);
                }
                adjustments.push(adjustment);
            },
            None => {},
        }
        i = i + 1;
    }
    assert(instrs@.take(instrs@.len() as int) =~= instrs@);
    adjustments
}

} // verus!
