//! Propagates the return type of `objc_alloc` / `objc_alloc_init` and their relatives:
//! when the class passed is a fixed one, the call returns a pointer to that class.
use vstd::prelude::*;
use vstd::string::*;

use crate::lookup::{answers, total, LookupModel, Lookups};
use crate::mlil::{
    CallSsa, MlilInstruction, MlilInstructionKind, RegisterValue, RegisterValueType, SsaVariable,
    Variable,
};
use crate::types::VariableType;
use crate::lookup::opt_bytes;
use crate::util::{
    class_type_at, lemma_class_name_from_each_symbol_form,
    lemma_collect_adjustments_come_from_instructions, lossy_utf8, match_call_to_function_named,
    names_view, spec_call_operands, spec_call_target, spec_class_type_at,
    spec_collect_adjustments, spec_match_call_to_function_named,
    spec_ssa_variable_value_or_load_of_constant_pointer, stands_at_a_call, CallTypeBase,
    ReturnType, ReturnTypeAdjustment,
};

verus! {

/// The allocation functions.  The `j_` prefixes are for stub functions in the dyld shared
/// cache, added by Binary Ninja's shared cache workflow.
pub open spec fn alloc_init_functions() -> Seq<Seq<u8>> {
    seq![
        "_objc_alloc_init".spec_bytes(),
        "_objc_alloc_initWithZone".spec_bytes(),
        "_objc_alloc".spec_bytes(),
        "_objc_allocWithZone".spec_bytes(),
        "_objc_opt_new".spec_bytes(),
        "j__objc_alloc_init".spec_bytes(),
        "j__objc_alloc_initWithZone".spec_bytes(),
        "j__objc_alloc".spec_bytes(),
        "j__objc_allocWithZone".spec_bytes(),
        "j__objc_opt_new".spec_bytes(),
    ]
}

/// The names of `alloc_init_functions`.
pub fn alloc_init_function_names() -> (names: Vec<&'static [u8]>)
    ensures
        names_view(names@) == alloc_init_functions(),
{
    let names = vec![
        "_objc_alloc_init".as_bytes(),
        "_objc_alloc_initWithZone".as_bytes(),
        "_objc_alloc".as_bytes(),
        "_objc_allocWithZone".as_bytes(),
        "_objc_opt_new".as_bytes(),
        "j__objc_alloc_init".as_bytes(),
        "j__objc_alloc_initWithZone".as_bytes(),
        "j__objc_alloc".as_bytes(),
        "j__objc_allocWithZone".as_bytes(),
        "j__objc_opt_new".as_bytes(),
    ];
    assert(names_view(names@) =~= alloc_init_functions());
    names
}

/// The confidence with which the return type of an allocation call is set.
pub const ALLOC_INIT_CONFIDENCE: u8 = 96;

/// The tag placed at adjusted calls.
pub const TAG_DESCRIPTION: &'static str = "Adjusted return type of alloc / init call";

/// The pointer held by the SSA variable that an allocation call is passed: a constant
/// pointer that data flow analysis determined, or, where it determined nothing, the
/// constant pointer that the variable was loaded from (an indirection through
/// `__objc_classrefs`).
pub open spec fn spec_ssa_variable_value_or_loaded_pointer(
    var: SsaVariable,
    values: spec_fn(SsaVariable) -> RegisterValue,
    definitions: spec_fn(SsaVariable) -> Option<MlilInstruction>,
) -> Option<u64> {
    let value = values(var);
    match value.state {
        RegisterValueType::ConstantPointerValue => Some(value.value as u64),
        RegisterValueType::UndeterminedValue => match definitions(var) {
            Some(def) => match def.kind {
                MlilInstructionKind::SetVarSsa { src, .. } => match src.kind {
                    MlilInstructionKind::LoadSsa { src } => match src.kind {
                        MlilInstructionKind::ConstPtr(src_memory) => Some(src_memory),
                        _ => None,
                    },
                    _ => None,
                },
                _ => None,
            },
            None => None,
        },
        _ => None,
    }
}

/// The allocation pass and the `init` passes resolve a variable's constant pointer the
/// same way: this pass's lookup gives what the shared one gives, for every variable and
/// every answer of the lookups.
pub proof fn lemma_loaded_pointer_lookups_agree(
    var: SsaVariable,
    values: spec_fn(SsaVariable) -> RegisterValue,
    definitions: spec_fn(SsaVariable) -> Option<MlilInstruction>,
)
    ensures
        spec_ssa_variable_value_or_loaded_pointer(var, values, definitions)
            == spec_ssa_variable_value_or_load_of_constant_pointer(var, values, definitions),
{
}

/// The class type that an allocation call returns a pointer to: its only parameter is a
/// constant pointer, or a variable holding one (see
/// `spec_ssa_variable_value_or_loaded_pointer`), to a class symbol.
pub open spec fn spec_return_type_for_alloc_function<H>(call: CallSsa, m: LookupModel<H>) -> Option<H> {
    if call.params@.len() == 1 {
        match call.params@[0].kind {
            MlilInstructionKind::ConstPtr(param) => spec_class_type_at(param, m),
            MlilInstructionKind::VarSsa(var) => match spec_ssa_variable_value_or_loaded_pointer(
                var,
                m.ssa_variable_value,
                m.ssa_variable_definition,
            ) {
                Some(param) => spec_class_type_at(param, m),
                None => None,
            },
            _ => None,
        }
    } else {
        None
    }
}

/// An allocation with a fixed class is adjusted: a call or tail call to a function named
/// `objc_alloc`, `objc_alloc_init`, `objc_allocWithZone`, `objc_alloc_initWithZone` or
/// `objc_opt_new` (or their `j_` stubs) whose only parameter is a constant pointer to a
/// class symbol (`cls_`, `clsRef_` or `_OBJC_CLASS_$_` and the class name) of a known type
/// returns a pointer to that type, set in the called function's type with confidence 96.
pub proof fn lemma_allocations_of_a_fixed_class_are_adjusted<H>(
    instr: MlilInstruction,
    call: CallSsa,
    m: LookupModel<H>,
    target: u64,
    name: &str,
    class_pointer: u64,
    prefix: Seq<u8>,
    class_name: Seq<u8>,
    class_type: H,
)
    requires
        instr.kind == MlilInstructionKind::CallSsa(call) || instr.kind == MlilInstructionKind::TailcallSsa(call),
        call.dest.kind == MlilInstructionKind::ConstPtr(target),
        opt_bytes((m.function_name_at)(target)) == Some(name.spec_bytes()),
        seq![
            "_objc_alloc_init"@,
            "_objc_alloc_initWithZone"@,
            "_objc_alloc"@,
            "_objc_allocWithZone"@,
            "_objc_opt_new"@,
            "j__objc_alloc_init"@,
            "j__objc_alloc_initWithZone"@,
            "j__objc_alloc"@,
            "j__objc_allocWithZone"@,
            "j__objc_opt_new"@,
        ].contains(name@),
        call.params@.len() == 1,
        call.params@[0].kind == MlilInstructionKind::ConstPtr(class_pointer),
        seq!["cls_".spec_bytes(), "clsRef_".spec_bytes(), "_OBJC_CLASS_$_".spec_bytes()].contains(prefix),
        opt_bytes((m.symbol_name_at)(class_pointer)) == Some(prefix + class_name),
        (m.type_by_name)(lossy_utf8(class_name)) == Some(class_type),
    ensures
        spec_process_instruction(instr, m) == Some(
            ReturnTypeAdjustment {
                address: instr.address,
                target,
                return_type: ReturnType::PointerTo(class_type),
                base: CallTypeBase::TargetFunctionType,
                confidence: 96u8,
                tag: "Adjusted return type of alloc / init call",
            },
        ),
{
    let listed = seq![
            "_objc_alloc_init"@,
            "_objc_alloc_initWithZone"@,
            "_objc_alloc"@,
            "_objc_allocWithZone"@,
            "_objc_opt_new"@,
            "j__objc_alloc_init"@,
            "j__objc_alloc_initWithZone"@,
            "j__objc_alloc"@,
            "j__objc_allocWithZone"@,
            "j__objc_opt_new"@,
        ];
    let k = choose|k: int| 0 <= k < listed.len() && listed[k] == name@;
    assert(alloc_init_functions()[k] == name.spec_bytes());
    assert(alloc_init_functions().contains(name.spec_bytes()));
    lemma_class_name_from_each_symbol_form(class_name);
    assert(spec_call_operands(instr) == Some(call));
}

/// The adjustment made at `instr`, where it is a call to an allocation function.
pub open spec fn spec_process_instruction<H>(instr: MlilInstruction, m: LookupModel<H>) -> Option<ReturnTypeAdjustment<H>> {
    match spec_match_call_to_function_named(instr, m.function_name_at, alloc_init_functions()) {
        Some(target) => match spec_return_type_for_alloc_function(spec_call_operands(instr).unwrap(), m) {
            Some(class_type) => Some(
                ReturnTypeAdjustment {
                    address: instr.address,
                    target,
                    return_type: ReturnType::PointerTo(class_type),
                    base: CallTypeBase::TargetFunctionType,
                    confidence: ALLOC_INIT_CONFIDENCE,
                    tag: TAG_DESCRIPTION,
                },
            ),
            None => None,
        },
        None => None,
    }
}

/// The pointer held by the SSA variable `var` that an allocation call is passed (see the
/// spec function of the same name).
pub fn ssa_variable_value_or_loaded_pointer<
    V: Fn(SsaVariable) -> RegisterValue,
    D: Fn(SsaVariable) -> Option<MlilInstruction>,
>(var: SsaVariable, ssa_variable_value: &V, ssa_variable_definition: &D) -> (r: Option<u64>)
    requires
        total(*ssa_variable_value),
        total(*ssa_variable_definition),
    ensures
        forall|values: spec_fn(SsaVariable) -> RegisterValue, definitions: spec_fn(SsaVariable) -> Option<MlilInstruction>|
            #![trigger answers(*ssa_variable_value, values), answers(*ssa_variable_definition, definitions)]
            answers(*ssa_variable_value, values) && answers(*ssa_variable_definition, definitions)
                ==> r == spec_ssa_variable_value_or_loaded_pointer(var, values, definitions),
{
    let value = ssa_variable_value(var);
    match value.state {
        RegisterValueType::ConstantPointerValue => Some(value.value as u64),
        RegisterValueType::UndeterminedValue => {
            let def = match ssa_variable_definition(var) {
                Some(def) => def,
                None => return None,
            };
            let src = match &def.kind {
                MlilInstructionKind::SetVarSsa { src, .. } => src,
                _ => return None,
            };
            let src = match &src.kind {
                MlilInstructionKind::LoadSsa { src } => src,
                _ => return None,
            };
            match &src.kind {
                MlilInstructionKind::ConstPtr(src_memory) => Some(*src_memory),
                _ => None,
            }
        },
        _ => None,
    }
}

/// The class type that the allocation call `call` returns a pointer to.
pub fn return_type_for_alloc_function<H, N, S, V, D, R, T, Y>(
    call: &CallSsa,
    lookups: &Lookups<N, S, V, D, R, T, Y>,
) -> (r: Option<H>) where
    N: Fn(u64) -> Option<Vec<u8>>,
    S: Fn(u64) -> Option<Vec<u8>>,
    V: Fn(SsaVariable) -> RegisterValue,
    D: Fn(SsaVariable) -> Option<MlilInstruction>,
    R: Fn(Variable) -> Vec<MlilInstruction>,
    T: Fn(&str) -> Option<H>,
    Y: Fn(Variable) -> Option<VariableType<H>>,

    requires
        lookups.total::<H>(),
    ensures
        call.params@.len() != 1 ==> r is None,
        forall|m: LookupModel<H>| #[trigger] lookups.answered_by(m)
            ==> r == spec_return_type_for_alloc_function(*call, m),
{
    if call.params.len() != 1 {
        return None;
    }
    let param = match &call.params[0].kind {
        MlilInstructionKind::ConstPtr(param) => *param,
        MlilInstructionKind::VarSsa(var) => {
            // Could be an indirection through `__objc_classrefs`.
            match ssa_variable_value_or_loaded_pointer(
                *var,
                &lookups.ssa_variable_value,
                &lookups.ssa_variable_definition,
            ) {
                Some(param) => param,
                None => return None,
            }
        },
        _ => return None,
    };
    class_type_at(param, lookups)
}

/// The adjustment to make at `instr`, where it is a call to an allocation function.
pub fn process_instruction<H, N, S, V, D, R, T, Y>(
    instr: &MlilInstruction,
    lookups: &Lookups<N, S, V, D, R, T, Y>,
) -> (r: Option<ReturnTypeAdjustment<H>>) where
    N: Fn(u64) -> Option<Vec<u8>>,
    S: Fn(u64) -> Option<Vec<u8>>,
    V: Fn(SsaVariable) -> RegisterValue,
    D: Fn(SsaVariable) -> Option<MlilInstruction>,
    R: Fn(Variable) -> Vec<MlilInstruction>,
    T: Fn(&str) -> Option<H>,
    Y: Fn(Variable) -> Option<VariableType<H>>,
    requires
        lookups.total::<H>(),
    ensures
        spec_call_target(*instr) is None ==> r is None,
        r matches Some(a) ==> {
            &&& a.address == instr.address
            &&& spec_call_target(*instr) == Some(a.target)
            &&& a.return_type is PointerTo
            &&& a.base == CallTypeBase::TargetFunctionType
            &&& a.confidence == ALLOC_INIT_CONFIDENCE
            &&& a.tag == TAG_DESCRIPTION
        },
        forall|m: LookupModel<H>| #[trigger] lookups.answered_by(m)
            ==> r == spec_process_instruction(*instr, m),
{
    let names = alloc_init_function_names();
    let call = match match_call_to_function_named(instr, &lookups.function_name_at, names.as_slice()) {
        Some(call) => call,
        None => return None,
    };
    match return_type_for_alloc_function(call.call, lookups) {
        Some(class_type) => Some(
            ReturnTypeAdjustment {
                address: instr.address,
                target: call.target,
                return_type: ReturnType::PointerTo(class_type),
                base: CallTypeBase::TargetFunctionType,
                confidence: ALLOC_INIT_CONFIDENCE,
                tag: TAG_DESCRIPTION,
            },
        ),
        None => None,
    }
}

/// The adjustments made over the instructions `instrs`, in order.
pub open spec fn spec_action<H>(instrs: Seq<MlilInstruction>, m: LookupModel<H>) -> Seq<ReturnTypeAdjustment<H>> {
    spec_collect_adjustments(instrs, decision(m))
}

/// `spec_process_instruction` as a function of the instruction.
pub open spec fn decision<H>(m: LookupModel<H>) -> spec_fn(MlilInstruction) -> Option<ReturnTypeAdjustment<H>> {
    |instr: MlilInstruction| spec_process_instruction(instr, m)
}

/// Whether `a` is an adjustment of one of the instructions `instrs`.
pub open spec fn is_adjustment_of_some<H>(a: ReturnTypeAdjustment<H>, instrs: Seq<MlilInstruction>, m: LookupModel<H>) -> bool {
    exists|j: int| 0 <= j < instrs.len() && #[trigger] is_adjustment_of(a, instrs[j], m)
}

/// What an adjustment says of the instruction it is made at.
pub open spec fn is_adjustment_of<H>(a: ReturnTypeAdjustment<H>, instr: MlilInstruction, m: LookupModel<H>) -> bool {
    &&& a.address == instr.address
    &&& spec_match_call_to_function_named(instr, m.function_name_at, alloc_init_functions())
        == Some(a.target)
    &&& a.return_type is PointerTo
    &&& a.base == CallTypeBase::TargetFunctionType
    &&& a.confidence == ALLOC_INIT_CONFIDENCE
    &&& a.tag == TAG_DESCRIPTION
}

/// Only calls to the allocation functions are adjusted: every adjustment stands at the
/// address of one of the instructions, a call to a function named as one of the
/// allocation functions, whose address it names as its target; the return type becomes a
/// pointer to a class type, in the called function's own type, with confidence 96.
pub proof fn lemma_only_allocation_calls_are_adjusted<H>(instrs: Seq<MlilInstruction>, m: LookupModel<H>)
    ensures
        forall|k: int| 0 <= k < spec_action(instrs, m).len()
            ==> is_adjustment_of_some(#[trigger] spec_action(instrs, m)[k], instrs, m),
{
    lemma_collect_adjustments_come_from_instructions(instrs, decision(m));
    assert forall|k: int| 0 <= k < spec_action(instrs, m).len()
        implies is_adjustment_of_some(#[trigger] spec_action(instrs, m)[k], instrs, m) by {
        let a = spec_action(instrs, m)[k];
        let j = choose|j: int| 0 <= j < instrs.len() && (decision(m))(instrs[j]) == Some(a);
        assert(spec_process_instruction(instrs[j], m) == Some(a));
        assert(is_adjustment_of(a, instrs[j], m));
    }
}

/// The adjustments to make over the instructions of a function, in order.
pub fn action<H, N, S, V, D, R, T, Y>(
    instrs: &Vec<MlilInstruction>,
    lookups: &Lookups<N, S, V, D, R, T, Y>,
) -> (r: Vec<ReturnTypeAdjustment<H>>) where
    N: Fn(u64) -> Option<Vec<u8>>,
    S: Fn(u64) -> Option<Vec<u8>>,
    V: Fn(SsaVariable) -> RegisterValue,
    D: Fn(SsaVariable) -> Option<MlilInstruction>,
    R: Fn(Variable) -> Vec<MlilInstruction>,
    T: Fn(&str) -> Option<H>,
    Y: Fn(Variable) -> Option<VariableType<H>>,
    requires
        lookups.total::<H>(),
    ensures
        r@.len() <= instrs@.len(),
        forall|k: int| 0 <= k < r@.len() ==> stands_at_a_call(#[trigger] r@[k], instrs@),
        forall|m: LookupModel<H>| #[trigger] lookups.answered_by(m)
            ==> r@ == spec_action(instrs@, m),
{
    let mut adjustments: Vec<ReturnTypeAdjustment<H>> = Vec::new();
    let mut i: usize = 0;
    while i < instrs.len()
        invariant
            i <= instrs@.len(),
            lookups.total::<H>(),
            adjustments@.len() <= i,
            forall|k: int| 0 <= k < adjustments@.len() ==> stands_at_a_call(#[trigger] adjustments@[k], instrs@),
            forall|m: LookupModel<H>| #[trigger] lookups.answered_by(m)
                ==> adjustments@ == spec_action(instrs@.take(i as int), m),
        decreases instrs@.len() - i,
    {
        assert(instrs@.take(i + 1).drop_last() =~= instrs@.take(i as int));
        let decided = process_instruction(&instrs[i], lookups);
        match decided {
            Some(adjustment) => {
                assert(stands_at_a_call(adjustment, instrs@)) by {
                    assert(adjustment.address == instrs@[i as int].address);
                }
                adjustments.push(adjustment);
            },
            None => {},
        }
        i = i + 1;
    }
    assert(instrs@.take(instrs@.len() as int) =~= instrs@);
    adjustments
}

} // verus!
