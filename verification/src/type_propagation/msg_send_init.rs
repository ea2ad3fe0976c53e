//! Propagates the return type of `[self initWith…]`: a message send whose selector is in
//! the `init` family returns the type of its receiver, when that type is known.
use vstd::prelude::*;
use vstd::string::*;

use crate::lookup::{opt_bytes, LookupModel, Lookups};
use crate::mlil::{
    CallSsa, MlilInstruction, MlilInstructionKind, RegisterValue, SsaVariable, Variable,
};
use crate::types::{PointeeType, ResolvedType, TypeClass, VariableType};
use crate::util::{
    adjust_return_type_of_call, bytes_eq, lemma_collect_adjustments_come_from_instructions,
    lemma_init_family_selectors, match_call_to_function_named, names_view, sel_init_bytes,
    selector_is_in_init_family, selector_symbol_begins_with_sel_init,
    spec_adjust_return_type_of_call, spec_call_operands, spec_call_target,
    spec_collect_adjustments, spec_match_call_to_function_named, spec_selector_is_in_init_family,
    stands_at_a_call, CallTypeBase, ReturnType, ReturnTypeAdjustment,
    CALL_TYPE_ADJUSTMENT_CONFIDENCE,
};

verus! {

/// The message send functions.  The `j_` prefix is for stub functions in the dyld shared
/// cache, added by Binary Ninja's shared cache workflow.
pub open spec fn objc_msg_send_functions() -> Seq<Seq<u8>> {
    seq!["_objc_msgSend".spec_bytes(), "j__objc_msgSend".spec_bytes()]
}

/// The names of `objc_msg_send_functions`.
pub fn objc_msg_send_function_names() -> (names: Vec<&'static [u8]>)
    ensures
        names_view(names@) == objc_msg_send_functions(),
{
    let names = vec!["_objc_msgSend".as_bytes(), "j__objc_msgSend".as_bytes()];
    assert(names_view(names@) =~= objc_msg_send_functions());
    names
}

/// The tag placed at adjusted calls.
pub const TAG_DESCRIPTION: &'static str = "Adjusted return type of -init call";

/// The registered name of the type that a pointer points to: a named type reference is
/// resolved first; a structure is taken as it is; any other type has none here.
pub open spec fn spec_underlying_registered_name(pointee: PointeeType) -> Option<Seq<u8>> {
    match pointee.class {
        TypeClass::NamedTypeReference => match pointee.named_target {
            Some(target) => opt_bytes(target.registered_name),
            None => None,
        },
        TypeClass::Structure => opt_bytes(pointee.registered_name),
        _ => None,
    }
}

/// The type of the receiver of the message send `call`, where the call's return type is
/// set to it: the receiver is an SSA variable whose type is a pointer to a named class
/// other than `objc_object` (an `id`, say, is left alone).
pub open spec fn spec_receiver_return_type<H>(call: CallSsa, m: LookupModel<H>) -> Option<H> {
    match call.params@[0].kind {
        MlilInstructionKind::VarSsa(src) => match (m.variable_type)(src.variable) {
            Some(receiver_type) => if receiver_type.class == TypeClass::Pointer {
                match receiver_type.pointee {
                    Some(pointee) => match spec_underlying_registered_name(pointee) {
                        Some(name) => if name == "objc_object".spec_bytes() {
                            None
                        } else {
                            Some(receiver_type.handle)
                        },
                        None => None,
                    },
                    None => None,
                }
            } else {
                None
            },
            None => None,
        },
        _ => None,
    }
}

/// Whether `return_type` is the type of the receiver of `call`, a variable whose type
/// is a pointer to a named type other than `objc_object`.
pub open spec fn receives_named_class<H>(call: CallSsa, m: LookupModel<H>, return_type: ReturnType<H>) -> bool {
    match call.params@[0].kind {
        MlilInstructionKind::VarSsa(receiver) => match (m.variable_type)(receiver.variable) {
            Some(receiver_type) => {
                &&& receiver_type.class == TypeClass::Pointer
                &&& return_type == ReturnType::Exactly(receiver_type.handle)
                &&& match receiver_type.pointee {
                    Some(pointee) => match spec_underlying_registered_name(pointee) {
                        Some(name) => name != "objc_object".spec_bytes(),
                        None => false,
                    },
                    None => false,
                }
            },
            None => false,
        },
        _ => false,
    }
}

/// An `-init…` message send is read through its receiver and its selector only: sends
/// that agree in their first two parameters agree in whether the selector is in the
/// `init` family and in the receiver type they return, whatever follows.
pub proof fn lemma_init_send_reads_receiver_and_selector<H>(call: CallSsa, other: CallSsa, m: LookupModel<H>)
    requires
        call.params@.len() >= 2,
        other.params@.len() >= 2,
        call.params@[0] == other.params@[0],
        call.params@[1] == other.params@[1],
    ensures
        spec_selector_is_in_init_family(call, m) == spec_selector_is_in_init_family(other, m),
        spec_receiver_return_type(call, m) == spec_receiver_return_type(other, m),
{
}

/// An `-init…` message to a receiver of a known class is adjusted: a call or tail call to
/// a function named `objc_msgSend` (or its `j_` stub), whose selector is a constant
/// pointer to a symbol named `sel_init…`, and whose receiver is an SSA variable typed as a
/// pointer to a structure, or to a named type reference that resolves, with a registered
/// name other than `objc_object`, returns the receiver's type, with confidence 192.
pub proof fn lemma_init_messages_return_their_receiver<H>(
    instr: MlilInstruction,
    call: CallSsa,
    m: LookupModel<H>,
    target: u64,
    name: &str,
    selector_pointer: u64,
    selector_rest: Seq<u8>,
    receiver: SsaVariable,
    receiver_type: VariableType<H>,
    pointee: PointeeType,
    resolved: ResolvedType,
    class_name: Seq<u8>,
)
    requires
        instr.kind == MlilInstructionKind::CallSsa(call) || instr.kind == MlilInstructionKind::TailcallSsa(call),
        call.dest.kind == MlilInstructionKind::ConstPtr(target),
        opt_bytes((m.function_name_at)(target)) == Some(name.spec_bytes()),
        name@ == "_objc_msgSend"@ || name@ == "j__objc_msgSend"@,
        call.params@.len() >= 2,
        call.params@[0].kind == MlilInstructionKind::VarSsa(receiver),
        call.params@[1].kind == MlilInstructionKind::ConstPtr(selector_pointer),
        opt_bytes((m.symbol_name_at)(selector_pointer)) == Some(sel_init_bytes() + selector_rest),
        (m.variable_type)(receiver.variable) == Some(receiver_type),
        receiver_type.class == TypeClass::Pointer,
        receiver_type.pointee == Some(pointee),
        (pointee.class == TypeClass::Structure && opt_bytes(pointee.registered_name) == Some(class_name))
            || (pointee.class == TypeClass::NamedTypeReference && pointee.named_target == Some(resolved)
            && opt_bytes(resolved.registered_name) == Some(class_name)),
        class_name != seq![111u8, 98u8, 106u8, 99u8, 95u8, 111u8, 98u8, 106u8, 101u8, 99u8, 116u8],
    ensures
        spec_process_instruction(instr, m) == Some(
            ReturnTypeAdjustment {
                address: instr.address,
                target,
                return_type: ReturnType::Exactly(receiver_type.handle),
                base: CallTypeBase::ExistingAdjustmentOrTargetFunctionType,
                confidence: 192u8,
                tag: "Adjusted return type of -init call",
            },
        ),
{
    reveal_strlit("objc_object");
    is_ascii_spec_bytes("objc_object");
    assert("objc_object".spec_bytes() =~= seq![111u8, 98u8, 106u8, 99u8, 95u8, 111u8, 98u8, 106u8, 101u8, 99u8, 116u8]);
    if name@ == "_objc_msgSend"@ {
        assert(objc_msg_send_functions()[0] == name.spec_bytes());
    } else {
        assert(objc_msg_send_functions()[1] == name.spec_bytes());
    }
    assert(spec_call_operands(instr) == Some(call));
    let symbol = sel_init_bytes() + selector_rest;
    assert(symbol.subrange(0, 8) =~= sel_init_bytes());
    lemma_init_family_selectors(call, m);
    assert(selector_symbol_begins_with_sel_init(call, m));
}

/// The adjustment made at `instr`, where it is an `-init…` message send.
pub open spec fn spec_process_instruction<H>(instr: MlilInstruction, m: LookupModel<H>) -> Option<ReturnTypeAdjustment<H>> {
    match spec_match_call_to_function_named(instr, m.function_name_at, objc_msg_send_functions()) {
        Some(target) => {
            let call = spec_call_operands(instr).unwrap();
            if spec_selector_is_in_init_family(call, m) {
                match spec_receiver_return_type(call, m) {
                    Some(receiver_type) => Some(
                        spec_adjust_return_type_of_call(
                            instr.address,
                            target,
                            ReturnType::Exactly(receiver_type),
                            TAG_DESCRIPTION,
                        ),
                    ),
                    None => None,
                }
            } else {
                None
            }
        },
        None => None,
    }
}

/// The registered name of the type that `pointee` stands for (see the spec function of
/// the same name).
fn underlying_registered_name(pointee: &PointeeType) -> (r: Option<&Vec<u8>>)
    ensures
        match r {
            Some(name) => spec_underlying_registered_name(*pointee) == Some(name@),
            None => spec_underlying_registered_name(*pointee) is None,
        },
{
    match pointee.class {
        TypeClass::NamedTypeReference => match &pointee.named_target {
            Some(target) => match &target.registered_name {
                Some(name) => Some(name),
                None => None,
            },
            None => None,
        },
        TypeClass::Structure => match &pointee.registered_name {
            Some(name) => Some(name),
            None => None,
        },
        _ => None,
    }
}

/// The receiver type that the `-init…` message send `call` returns.
pub fn receiver_return_type<H, N, S, V, D, R, T, Y>(
    call: &CallSsa,
    lookups: &Lookups<N, S, V, D, R, T, Y>,
) -> (r: Option<H>) where
    N: Fn(u64) -> Option<Vec<u8>>,
    S: Fn(u64) -> Option<Vec<u8>>,
    V: Fn(SsaVariable) -> RegisterValue,
    D: Fn(SsaVariable) -> Option<MlilInstruction>,
    R: Fn(Variable) -> Vec<MlilInstruction>,
    T: Fn(&str) -> Option<H>,
    Y: Fn(Variable) -> Option<VariableType<H>>,
    requires
        lookups.total::<H>(),
        call.params@.len() >= 1,
    ensures
        forall|m: LookupModel<H>| #[trigger] lookups.answered_by(m)
            ==> r == spec_receiver_return_type(*call, m),
{
    let src = match &call.params[0].kind {
        MlilInstructionKind::VarSsa(src) => *src,
        _ => return None,
    };
    let receiver_type = match (lookups.variable_type)(src.variable) {
        Some(t) => t,
        None => return None,
    };
    if receiver_type.class != TypeClass::Pointer {
        // This is often `id`.
        return None;
    }
    let named = match &receiver_type.pointee {
        Some(pointee) => match underlying_registered_name(pointee) {
            Some(name) => !bytes_eq(name.as_slice(), "objc_object".as_bytes()),
            None => return None,
        },
        None => return None,
    };
    if named {
        Some(receiver_type.handle)
    } else {
        None
    }
}

/// The adjustment to make at `instr`, where it is an `-init…` message send.
pub fn process_instruction<H, N, S, V, D, R, T, Y>(
    instr: &MlilInstruction,
    lookups: &Lookups<N, S, V, D, R, T, Y>,
) -> (r: Option<ReturnTypeAdjustment<H>>) where
    N: Fn(u64) -> Option<Vec<u8>>,
    S: Fn(u64) -> Option<Vec<u8>>,
    V: Fn(SsaVariable) -> RegisterValue,
    D: Fn(SsaVariable) -> Option<MlilInstruction>,
    R: Fn(Variable) -> Vec<MlilInstruction>,
    T: Fn(&str) -> Option<H>,
    Y: Fn(Variable) -> Option<VariableType<H>>,
    requires
        lookups.total::<H>(),
    ensures
        spec_call_target(*instr) is None ==> r is None,
        r matches Some(a) ==> {
            &&& a.address == instr.address
            &&& spec_call_target(*instr) == Some(a.target)
            &&& a.return_type is Exactly
            &&& a.base == CallTypeBase::ExistingAdjustmentOrTargetFunctionType
            &&& a.confidence == CALL_TYPE_ADJUSTMENT_CONFIDENCE
            &&& a.tag == TAG_DESCRIPTION
        },
        forall|m: LookupModel<H>| #[trigger] lookups.answered_by(m)
            ==> r == spec_process_instruction(*instr, m),
{
    let names = objc_msg_send_function_names();
    let call = match match_call_to_function_named(instr, &lookups.function_name_at, names.as_slice()) {
        Some(call) => call,
        None => return None,
    };
    // Expecting to see at least the receiver and a selector.
    if !selector_is_in_init_family(call.call, lookups) {
        return None;
    }
    match receiver_return_type(call.call, lookups) {
        Some(receiver_type) => Some(
            adjust_return_type_of_call(&call, ReturnType::Exactly(receiver_type), TAG_DESCRIPTION),
        ),
        None => None,
    }
}

/// The adjustments made over the instructions `instrs`, in order.
pub open spec fn spec_action<H>(instrs: Seq<MlilInstruction>, m: LookupModel<H>) -> Seq<ReturnTypeAdjustment<H>> {
    spec_collect_adjustments(instrs, decision(m))
}

/// `spec_process_instruction` as a function of the instruction.
pub open spec fn decision<H>(m: LookupModel<H>) -> spec_fn(MlilInstruction) -> Option<ReturnTypeAdjustment<H>> {
    |instr: MlilInstruction| spec_process_instruction(instr, m)
}

/// Whether `a` is an adjustment of one of the instructions `instrs`.
pub open spec fn is_adjustment_of_some<H>(a: ReturnTypeAdjustment<H>, instrs: Seq<MlilInstruction>, m: LookupModel<H>) -> bool {
    exists|j: int| 0 <= j < instrs.len() && #[trigger] is_adjustment_of(a, instrs[j], m)
}

/// What an adjustment says of the instruction it is made at.
pub open spec fn is_adjustment_of<H>(a: ReturnTypeAdjustment<H>, instr: MlilInstruction, m: LookupModel<H>) -> bool {
    &&& a.address == instr.address
    &&& spec_match_call_to_function_named(instr, m.function_name_at, objc_msg_send_functions())
        == Some(a.target)
    &&& spec_selector_is_in_init_family(spec_call_operands(instr).unwrap(), m)
    &&& receives_named_class(spec_call_operands(instr).unwrap(), m, a.return_type)
    &&& a.base == CallTypeBase::ExistingAdjustmentOrTargetFunctionType
    &&& a.confidence == CALL_TYPE_ADJUSTMENT_CONFIDENCE
    &&& a.tag == TAG_DESCRIPTION
}

/// Only `-init…` message sends are adjusted, and only to their receiver's type: every
/// adjustment stands at the address of one of the instructions, a call to `objc_msgSend`
/// whose selector is in the `init` family, whose address it names as its target; its
/// return type is the type of the receiver variable, a pointer to a named type other
/// than `objc_object`; the confidence is 192.
pub proof fn lemma_only_init_message_sends_are_adjusted<H>(instrs: Seq<MlilInstruction>, m: LookupModel<H>)
    ensures
        forall|k: int| 0 <= k < spec_action(instrs, m).len()
            ==> is_adjustment_of_some(#[trigger] spec_action(instrs, m)[k], instrs, m),
{
    lemma_collect_adjustments_come_from_instructions(instrs, decision(m));
    assert forall|k: int| 0 <= k < spec_action(instrs, m).len()
        implies is_adjustment_of_some(#[trigger] spec_action(instrs, m)[k], instrs, m) by {
        let a = spec_action(instrs, m)[k];
        let j = choose|j: int| 0 <= j < instrs.len() && (decision(m))(instrs[j]) == Some(a);
        assert(spec_process_instruction(instrs[j], m) == Some(a));
        assert(is_adjustment_of(a, instrs[j], m));
    }
}

/// Only `init`-family selectors are adjusted: a message send is adjusted only if its selector
/// is a constant pointer, or a load of one, to a symbol whose name begins with the eight
/// bytes `sel_init`; `[x intValue]`, say, is left alone.
pub proof fn lemma_only_init_selectors_are_adjusted<H>(instr: MlilInstruction, m: LookupModel<H>)
    ensures
        spec_process_instruction(instr, m) is Some ==> (spec_call_operands(instr) matches Some(call)
            && selector_symbol_begins_with_sel_init(call, m)),
{
    if spec_process_instruction(instr, m) is Some {
        lemma_init_family_selectors(spec_call_operands(instr).unwrap(), m);
    }
}

/// The adjustments to make over the instructions of a function, in order.
pub fn action<H, N, S, V, D, R, T, Y>(
    instrs: &Vec<MlilInstruction>,
    lookups: &Lookups<N, S, V, D, R, T, Y>,
) -> (r: Vec<ReturnTypeAdjustment<H>>) where
    N: Fn(u64) -> Option<Vec<u8>>,
    S: Fn(u64) -> Option<Vec<u8>>,
    V: Fn(SsaVariable) -> RegisterValue,
    D: Fn(SsaVariable) -> Option<MlilInstruction>,
    R: Fn(Variable) -> Vec<MlilInstruction>,
    T: Fn(&str) -> Option<H>,
    Y: Fn(Variable) -> Option<VariableType<H>>,
    requires
        lookups.total::<H>(),
    ensures
        r@.len() <= instrs@.len(),
        forall|k: int| 0 <= k < r@.len() ==> stands_at_a_call(#[trigger] r@[k], instrs@),
        forall|m: LookupModel<H>| #[trigger] lookups.answered_by(m)
            ==> r@ == spec_action(instrs@, m),
{
    let mut adjustments: Vec<ReturnTypeAdjustment<H>> = Vec::new();
    let mut i: usize = 0;
    while i < instrs.len()
        invariant
            i <= instrs@.len(),
            lookups.total::<H>(),
            adjustments@.len() <= i,
            forall|k: int| 0 <= k < adjustments@.len() ==> stands_at_a_call(#[trigger] adjustments@[k], instrs@),
            forall|m: LookupModel<H>| #[trigger] lookups.answered_by(m)
                ==> adjustments@ == spec_action(instrs@.take(i as int), m),
        decreases instrs@.len() - i,
    {
        assert(instrs@.take(i + 1).drop_last() =~= instrs@.take(i as int));
        let decided = process_instruction(&instrs[i], lookups);
        match decided {
            Some(adjustment) => {
                assert(stands_at_a_call(adjustment, instrs@)) by {
                    assert(adjustment.address == instrs@[i as int].address);
                }
                adjustments.push(adjustment);
            },
            None => {},
        }
        i = i + 1;
    }
    assert(instrs@.take(instrs@.len() as int) =~= instrs@);
    adjustments
}

} // verus!
