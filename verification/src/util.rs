//! Objective-C symbol names, and matching calls and constant pointers in the medium
//! level IL.
use bstr::ByteSlice;
use vstd::prelude::*;
use vstd::string::*;

use crate::lookup::{answers, opt_bytes, opt_slice, total, LookupModel, Lookups};
use crate::types::VariableType;
use crate::mlil::{
    CallSsa, MlilInstruction, MlilInstructionKind, RegisterValue, RegisterValueType, SsaVariable,
    Variable,
};

verus! {

/// Whether `bytes` begins with `prefix`.
pub fn starts_with(bytes: &[u8], prefix: &[u8]) -> (r: bool)
    ensures
        r == prefix@.is_prefix_of(bytes@),
{
    if prefix.len() > bytes.len() {
        return false;
    }
    let mut i: usize = 0;
    while i < prefix.len()
        invariant
            prefix@.len() <= bytes@.len(),
            i <= prefix@.len(),
            forall|j: int| 0 <= j < i ==> prefix@[j] == bytes@[j],
        decreases prefix@.len() - i,
    {
        if prefix[i] != bytes[i] {
            return false;
        }
        i = i + 1;
    }
    assert(prefix@ =~= bytes@.subrange(0, prefix@.len() as int));
    true
}

/// Whether two byte strings are equal.
pub fn bytes_eq(a: &[u8], b: &[u8]) -> (r: bool)
    ensures
        r == (a@ == b@),
{
    if a.len() != b.len() {
        return false;
    }
    let r = starts_with(a, b);
    proof {
        if r {
            assert(a@ =~= b@);
        }
    }
    r
}

/// The byte strings of a list of names.
pub open spec fn names_view(names: Seq<&[u8]>) -> Seq<Seq<u8>> {
    names.map_values(|n: &[u8]| n@)
}

/// Whether `name` is one of `names`.
pub fn contains_name(names: &[&[u8]], name: &[u8]) -> (r: bool)
    ensures
        r == names_view(names@).contains(name@),
{
    let mut i: usize = 0;
    while i < names.len()
        invariant
            i <= names@.len(),
            forall|j: int| 0 <= j < i ==> names@[j]@ != name@,
        decreases names@.len() - i,
    {
        if bytes_eq(names[i], name) {
            assert(names_view(names@)[i as int] == name@);
            return true;
        }
        i = i + 1;
    }
    proof {
        if names_view(names@).contains(name@) {
            let k = choose|k: int| 0 <= k < names_view(names@).len() && names_view(names@)[k] == name@;
            assert(names@[k]@ == name@);
        }
    }
    false
}

/// `name` with the prefix `prefix` removed, where it has that prefix.
pub open spec fn strip_prefix(name: Seq<u8>, prefix: Seq<u8>) -> Option<Seq<u8>> {
    if prefix.is_prefix_of(name) {
        Some(name.skip(prefix.len() as int))
    } else {
        None
    }
}

/// The class name in the name of the symbol of an `objc_class_t`: the name after one of
/// the prefixes `cls_`, `clsRef_` or `_OBJC_CLASS_$_`, tried in that order.
pub open spec fn spec_class_name_from_symbol_name(symbol_name: Seq<u8>) -> Option<Seq<u8>> {
    if "cls_".spec_bytes().is_prefix_of(symbol_name) {
        strip_prefix(symbol_name, "cls_".spec_bytes())
    } else if "clsRef_".spec_bytes().is_prefix_of(symbol_name) {
        strip_prefix(symbol_name, "clsRef_".spec_bytes())
    } else {
        strip_prefix(symbol_name, "_OBJC_CLASS_$_".spec_bytes())
    }
}

/// The selector name in the name of a selector reference symbol: the name after `sel_`.
pub open spec fn spec_selector_name_from_symbol_name(symbol_name: Seq<u8>) -> Option<Seq<u8>> {
    strip_prefix(symbol_name, "sel_".spec_bytes())
}

/// The bytes of the prefixes of Objective-C symbol names, and of `init`.
pub proof fn lemma_prefix_bytes()
    ensures
        "init".spec_bytes() == seq![105u8, 110u8, 105u8, 116u8],
        "cls_".spec_bytes() == seq![99u8, 108u8, 115u8, 95u8],
        "clsRef_".spec_bytes() == seq![99u8, 108u8, 115u8, 82u8, 101u8, 102u8, 95u8],
        "_OBJC_CLASS_$_".spec_bytes() == seq![
            95u8, 79u8, 66u8, 74u8, 67u8, 95u8, 67u8, 76u8, 65u8, 83u8, 83u8, 95u8, 36u8, 95u8,
        ],
        "sel_".spec_bytes() == seq![115u8, 101u8, 108u8, 95u8],
{
    reveal_strlit("cls_");
    reveal_strlit("clsRef_");
    reveal_strlit("_OBJC_CLASS_$_");
    reveal_strlit("sel_");
    reveal_strlit("init");
    is_ascii_spec_bytes("init");
    assert("init".spec_bytes() =~= seq![105u8, 110u8, 105u8, 116u8]);
    is_ascii_spec_bytes("cls_");
    is_ascii_spec_bytes("clsRef_");
    is_ascii_spec_bytes("_OBJC_CLASS_$_");
    is_ascii_spec_bytes("sel_");
    assert("cls_".spec_bytes() =~= seq![99u8, 108u8, 115u8, 95u8]);
    assert("clsRef_".spec_bytes() =~= seq![99u8, 108u8, 115u8, 82u8, 101u8, 102u8, 95u8]);
    assert("_OBJC_CLASS_$_".spec_bytes() =~= seq![
        95u8, 79u8, 66u8, 74u8, 67u8, 95u8, 67u8, 76u8, 65u8, 83u8, 83u8, 95u8, 36u8, 95u8,
    ]);
    assert("sel_".spec_bytes() =~= seq![115u8, 101u8, 108u8, 95u8]);
}

/// A class name is its symbol's name without the prefix: where a class name is found,
/// the symbol's name is one of the three prefixes followed by it.
pub proof fn lemma_class_name_follows_a_prefix(symbol_name: Seq<u8>)
    ensures
        spec_class_name_from_symbol_name(symbol_name) matches Some(class_name) ==> {
            ||| symbol_name == "cls_".spec_bytes() + class_name
            ||| symbol_name == "clsRef_".spec_bytes() + class_name
            ||| symbol_name == "_OBJC_CLASS_$_".spec_bytes() + class_name
        },
{
    if let Some(class_name) = spec_class_name_from_symbol_name(symbol_name) {
        if "cls_".spec_bytes().is_prefix_of(symbol_name) {
            assert(symbol_name =~= "cls_".spec_bytes() + class_name);
        } else if "clsRef_".spec_bytes().is_prefix_of(symbol_name) {
            assert(symbol_name =~= "clsRef_".spec_bytes() + class_name);
        } else {
            assert(symbol_name =~= "_OBJC_CLASS_$_".spec_bytes() + class_name);
        }
    }
}

/// Each of the three forms of a class's symbol name gives back the class name.
pub proof fn lemma_class_name_from_each_symbol_form(class_name: Seq<u8>)
    ensures
        spec_class_name_from_symbol_name("cls_".spec_bytes() + class_name) == Some(class_name),
        spec_class_name_from_symbol_name("clsRef_".spec_bytes() + class_name) == Some(class_name),
        spec_class_name_from_symbol_name("_OBJC_CLASS_$_".spec_bytes() + class_name) == Some(class_name),
{
    lemma_prefix_bytes();
    let cls = "cls_".spec_bytes();
    let cls_ref = "clsRef_".spec_bytes();
    let objc_class = "_OBJC_CLASS_$_".spec_bytes();
    assert((cls + class_name).subrange(0, 4) =~= cls);
    assert((cls + class_name).skip(4) =~= class_name);
    assert((cls_ref + class_name)[3] != cls[3]);
    assert(!cls.is_prefix_of(cls_ref + class_name));
    assert((cls_ref + class_name).subrange(0, 7) =~= cls_ref);
    assert((cls_ref + class_name).skip(7) =~= class_name);
    assert((objc_class + class_name)[0] != cls[0]);
    assert((objc_class + class_name)[0] != cls_ref[0]);
    assert(!cls.is_prefix_of(objc_class + class_name));
    assert(!cls_ref.is_prefix_of(objc_class + class_name));
    assert((objc_class + class_name).subrange(0, 14) =~= objc_class);
    assert((objc_class + class_name).skip(14) =~= class_name);
}

/// A selector's symbol is `sel_` followed by the selector's name, and only such a name
/// gives a selector.
pub proof fn lemma_selector_name_round_trip(symbol_name: Seq<u8>, selector: Seq<u8>)
    ensures
        spec_selector_name_from_symbol_name("sel_".spec_bytes() + selector) == Some(selector),
        spec_selector_name_from_symbol_name(symbol_name) == Some(selector)
            ==> symbol_name == "sel_".spec_bytes() + selector,
{
    let sel = "sel_".spec_bytes();
    assert((sel + selector).subrange(0, sel.len() as int) =~= sel);
    assert((sel + selector).skip(sel.len() as int) =~= selector);
    if spec_selector_name_from_symbol_name(symbol_name) == Some(selector) {
        assert(symbol_name =~= sel + selector);
    }
}

/// `name` with `prefix` removed, where it starts with `prefix`.
fn strip_prefix_of<'a>(name: &'a [u8], prefix: &[u8]) -> (r: Option<&'a [u8]>)
    ensures
        opt_slice(r) == strip_prefix(name@, prefix@),
{
    if starts_with(name, prefix) {
        let rest = &name[prefix.len()..name.len()];
        assert(rest@ =~= name@.skip(prefix@.len() as int));
        Some(rest)
    } else {
        None
    }
}

/// The class name within the name of the symbol for an `objc_class_t`.  The symbol's
/// name depends on whether the reference is local or external, and on whether it is
/// from the shared cache or a standalone Mach-O file.
pub fn class_name_from_symbol_name(symbol_name: &[u8]) -> (r: Option<&[u8]>)
    ensures
        opt_slice(r) == spec_class_name_from_symbol_name(symbol_name@),
{
    let cls = "cls_".as_bytes();
    let cls_ref = "clsRef_".as_bytes();
    let objc_class = "_OBJC_CLASS_$_".as_bytes();
    if starts_with(symbol_name, cls) {
        strip_prefix_of(symbol_name, cls)
    } else if starts_with(symbol_name, cls_ref) {
        strip_prefix_of(symbol_name, cls_ref)
    } else {
        strip_prefix_of(symbol_name, objc_class)
    }
}

/// The selector name within the name of a selector reference symbol.
pub fn selector_name_from_symbol_name(symbol_name: &[u8]) -> (r: Option<&[u8]>)
    ensures
        opt_slice(r) == spec_selector_name_from_symbol_name(symbol_name@),
{
    strip_prefix_of(symbol_name, "sel_".as_bytes())
}

/// A call or tail call found in the IL, with the address of the function it calls.
pub struct Call<'a> {
    pub instr: &'a MlilInstruction,
    pub call: &'a CallSsa,
    pub target: u64,
}

/// The operands of `instr`, where it is a call or a tail call.
pub open spec fn spec_call_operands(instr: MlilInstruction) -> Option<CallSsa> {
    match instr.kind {
        MlilInstructionKind::CallSsa(call) => Some(call),
        MlilInstructionKind::TailcallSsa(call) => Some(call),
        _ => None,
    }
}

/// The address that `instr` calls, where it is a call or a tail call to a constant
/// pointer.
pub open spec fn spec_call_target(instr: MlilInstruction) -> Option<u64> {
    match spec_call_operands(instr) {
        Some(call) => match call.dest.kind {
            MlilInstructionKind::ConstPtr(target) => Some(target),
            _ => None,
        },
        None => None,
    }
}

/// The address that `instr` calls, where it calls a function (`function_name_at` gives the
/// name of the function at an address) whose name is one of `names`.
pub open spec fn spec_match_call_to_function_named(
    instr: MlilInstruction,
    function_name_at: spec_fn(u64) -> Option<Vec<u8>>,
    names: Seq<Seq<u8>>,
) -> Option<u64> {
    match spec_call_target(instr) {
        Some(target) => match opt_bytes(function_name_at(target)) {
            Some(name) => if names.contains(name) {
                Some(target)
            } else {
                None
            },
            None => None,
        },
        None => None,
    }
}

/// More names never lose a match: a call matched against some names is matched, to the
/// same target, against any list that holds them all; against no names nothing matches.
pub proof fn lemma_match_call_with_more_names(
    instr: MlilInstruction,
    function_name_at: spec_fn(u64) -> Option<Vec<u8>>,
    names: Seq<Seq<u8>>,
    more_names: Seq<Seq<u8>>,
)
    requires
        forall|name: Seq<u8>| names.contains(name) ==> more_names.contains(name),
    ensures
        spec_match_call_to_function_named(instr, function_name_at, names) matches Some(target)
            ==> spec_match_call_to_function_named(instr, function_name_at, more_names) == Some(target),
        names.len() == 0 ==> spec_match_call_to_function_named(instr, function_name_at, names) is None,
{
    if let Some(target) = spec_call_target(instr) {
        if let Some(name) = opt_bytes(function_name_at(target)) {
            if names.len() == 0 {
                assert(!names.contains(name));
            }
        }
    }
}

/// Returns a `Call` if `instr` is a call or tail call to a function whose name appears in
/// `function_names`.  `function_name_at` gives the name of the function that starts at an
/// address, if there is one.
pub fn match_call_to_function_named<'a, N: Fn(u64) -> Option<Vec<u8>>>(
    instr: &'a MlilInstruction,
    function_name_at: &N,
    function_names: &[&[u8]],
) -> (r: Option<Call<'a>>)
    requires
        total(*function_name_at),
    ensures
        function_names@.len() == 0 ==> r is None,
        spec_call_target(*instr) is None ==> r is None,
        r matches Some(c) ==> {
            &&& *c.instr == *instr
            &&& spec_call_operands(*instr) == Some(*c.call)
            &&& spec_call_target(*instr) == Some(c.target)
        },
        forall|names: spec_fn(u64) -> Option<Vec<u8>>|
            #[trigger] answers(*function_name_at, names) ==> match r {
                Some(c) => {
                    &&& spec_match_call_to_function_named(*instr, names, names_view(function_names@))
                        == Some(c.target)
                    &&& *c.instr == *instr
                    &&& spec_call_operands(*instr) == Some(*c.call)
                },
                None => spec_match_call_to_function_named(*instr, names, names_view(function_names@))
                    is None,
            },
{
    let call = match &instr.kind {
        MlilInstructionKind::CallSsa(call) => call,
        MlilInstructionKind::TailcallSsa(call) => call,
        _ => return None,
    };
    let target = match &call.dest.kind {
        MlilInstructionKind::ConstPtr(target) => *target,
        _ => return None,
    };
    let name = function_name_at(target);
    match name {
        Some(name) => {
            if contains_name(function_names, name.as_slice()) {
                Some(Call { instr, call, target })
            } else {
                None
            }
        },
        None => None,
    }
}

/// The constant pointer that an SSA variable holds: either data flow analysis found a
/// constant pointer, or, where it found nothing, the variable was set by a load from a
/// constant pointer, which is then the value.
pub open spec fn spec_ssa_variable_value_or_load_of_constant_pointer(
    var: SsaVariable,
    values: spec_fn(SsaVariable) -> RegisterValue,
    definitions: spec_fn(SsaVariable) -> Option<MlilInstruction>,
) -> Option<u64> {
    let value = values(var);
    if value.state == RegisterValueType::ConstantPointerValue {
        Some(value.value as u64)
    } else if value.state == RegisterValueType::UndeterminedValue {
        match definitions(var) {
            Some(def) => match def.kind {
                MlilInstructionKind::SetVarSsa { src, .. } => match src.kind {
                    MlilInstructionKind::LoadSsa { src } => match src.kind {
                        MlilInstructionKind::ConstPtr(constant) => Some(constant),
                        _ => None,
                    },
                    _ => None,
                },
                _ => None,
            },
            None => None,
        }
    } else {
        None
    }
}

/// The constant pointer that `instr` is, or that the SSA variable it reads holds.
pub open spec fn spec_match_constant_pointer_or_load_of_constant_pointer(
    instr: MlilInstruction,
    values: spec_fn(SsaVariable) -> RegisterValue,
    definitions: spec_fn(SsaVariable) -> Option<MlilInstruction>,
) -> Option<u64> {
    match instr.kind {
        MlilInstructionKind::ConstPtr(constant) => Some(constant),
        MlilInstructionKind::VarSsa(var) => spec_ssa_variable_value_or_load_of_constant_pointer(
            var,
            values,
            definitions,
        ),
        _ => None,
    }
}

/// The constant pointer that `var` holds (see the spec function of the same name).
/// `ssa_variable_value` gives what data flow analysis determined for a variable, and
/// `ssa_variable_definition` the instruction that defines it.
pub fn ssa_variable_value_or_load_of_constant_pointer<
    V: Fn(SsaVariable) -> RegisterValue,
    D: Fn(SsaVariable) -> Option<MlilInstruction>,
>(var: SsaVariable, ssa_variable_value: &V, ssa_variable_definition: &D) -> (r: Option<u64>)
    requires
        total(*ssa_variable_value),
        total(*ssa_variable_definition),
    ensures
        forall|values: spec_fn(SsaVariable) -> RegisterValue, definitions: spec_fn(SsaVariable) -> Option<MlilInstruction>|
            #![trigger answers(*ssa_variable_value, values), answers(*ssa_variable_definition, definitions)]
            answers(*ssa_variable_value, values) && answers(*ssa_variable_definition, definitions)
                ==> r == spec_ssa_variable_value_or_load_of_constant_pointer(var, values, definitions),
{
    let value = ssa_variable_value(var);
    match value.state {
        RegisterValueType::ConstantPointerValue => return Some(value.value as u64),
        RegisterValueType::UndeterminedValue => {},
        _ => return None,
    }
    let def = ssa_variable_definition(var);
    let def = match def {
        Some(def) => def,
        None => return None,
    };
    let r = match &def.kind {
        MlilInstructionKind::SetVarSsa { src, .. } => match &src.kind {
            MlilInstructionKind::LoadSsa { src } => match &src.kind {
                MlilInstructionKind::ConstPtr(constant) => Some(*constant),
                _ => None,
            },
            _ => None,
        },
        _ => None,
    };
    r
}

/// If `instr` is a constant pointer or is a variable whose value is loaded from a constant
/// pointer, returns that pointer address.
pub fn match_constant_pointer_or_load_of_constant_pointer<
    V: Fn(SsaVariable) -> RegisterValue,
    D: Fn(SsaVariable) -> Option<MlilInstruction>,
>(instr: &MlilInstruction, ssa_variable_value: &V, ssa_variable_definition: &D) -> (r: Option<u64>)
    requires
        total(*ssa_variable_value),
        total(*ssa_variable_definition),
    ensures
        forall|values: spec_fn(SsaVariable) -> RegisterValue, definitions: spec_fn(SsaVariable) -> Option<MlilInstruction>|
            #![trigger answers(*ssa_variable_value, values), answers(*ssa_variable_definition, definitions)]
            answers(*ssa_variable_value, values) && answers(*ssa_variable_definition, definitions)
                ==> r == spec_match_constant_pointer_or_load_of_constant_pointer(*instr, values, definitions),
{
    match &instr.kind {
        MlilInstructionKind::ConstPtr(constant) => Some(*constant),
        MlilInstructionKind::VarSsa(var) => ssa_variable_value_or_load_of_constant_pointer(
            *var,
            ssa_variable_value,
            ssa_variable_definition,
        ),
        _ => None,
    }
}

/// Names what `bstr`'s `ByteSlice::to_str_lossy` makes of a byte string: the text that
/// the bytes decode to as UTF-8, each invalid sequence replaced by U+FFFD.
pub uninterp spec fn lossy_utf8(bytes: Seq<u8>) -> Seq<char>;

/// Calls `bstr`'s `ByteSlice::to_str_lossy`.  Its contract claims that the text is
/// `lossy_utf8` of the bytes (equal bytes give equal text), and that bytes that are valid
/// UTF-8 are decoded unchanged; what replaces invalid bytes is left unsaid.
#[verifier::external_body]
pub(crate) fn to_str_lossy(bytes: &[u8]) -> (text: String)
    ensures
        text@ == lossy_utf8(bytes@),
        vstd::utf8::valid_utf8(bytes@) ==> text@ == vstd::utf8::decode_utf8(bytes@),
{
    bytes.to_str_lossy().into_owned()
}

/// The type that a call's return type is set to.
#[derive(PartialEq, Eq, Debug)]
pub enum ReturnType<H> {
    /// A pointer to the given type, for the architecture of the called function.
    PointerTo(H),
    /// The given type itself.
    Exactly(H),
}

/// The function type whose return type is replaced.
#[derive(PartialEq, Eq, Structural, Clone, Copy, Debug)]
pub enum CallTypeBase {
    /// The type of the called function.
    TargetFunctionType,
    /// The call type adjustment already made at the call, where there is one, else the
    /// type of the called function.
    ExistingAdjustmentOrTargetFunctionType,
}

/// A decision to adjust the type of the call at `address` to the function at `target`:
/// its return type becomes `return_type`, with the given confidence, and the call is
/// tagged with `tag`.
#[derive(PartialEq, Eq, Debug)]
pub struct ReturnTypeAdjustment<H> {
    pub address: u64,
    pub target: u64,
    pub return_type: ReturnType<H>,
    pub base: CallTypeBase,
    pub confidence: u8,
    pub tag: &'static str,
}

/// The confidence with which a matched call's return type is adjusted.
pub const CALL_TYPE_ADJUSTMENT_CONFIDENCE: u8 = 192;

/// The adjustment that `adjust_return_type_of_call` decides on.
pub open spec fn spec_adjust_return_type_of_call<H>(
    address: u64,
    target: u64,
    return_type: ReturnType<H>,
    tag: &'static str,
) -> ReturnTypeAdjustment<H> {
    ReturnTypeAdjustment {
        address,
        target,
        return_type,
        base: CallTypeBase::ExistingAdjustmentOrTargetFunctionType,
        confidence: CALL_TYPE_ADJUSTMENT_CONFIDENCE,
        tag,
    }
}

/// Adjusts the return type of the call represented by `call`: the call type already set
/// at the call, or else the called function's type, with `return_type` as its return
/// type.  A tag is added at the call instruction with the given description.
pub fn adjust_return_type_of_call<H>(call: &Call, return_type: ReturnType<H>, tag_description: &'static str) -> (r: ReturnTypeAdjustment<H>)
    ensures
        r == spec_adjust_return_type_of_call(call.instr.address, call.target, return_type, tag_description),
{
    ReturnTypeAdjustment {
        address: call.instr.address,
        target: call.target,
        return_type,
        base: CallTypeBase::ExistingAdjustmentOrTargetFunctionType,
        confidence: CALL_TYPE_ADJUSTMENT_CONFIDENCE,
        tag: tag_description,
    }
}

/// Whether the selector of a message send (its second parameter) is in the `init`
/// family: it is a constant pointer, or a load from one, to a symbol named `sel_init…`.
pub open spec fn spec_selector_is_in_init_family<H>(call: CallSsa, m: LookupModel<H>) -> bool {
    &&& call.params@.len() >= 2
    &&& match spec_match_constant_pointer_or_load_of_constant_pointer(
        call.params@[1],
        m.ssa_variable_value,
        m.ssa_variable_definition,
    ) {
        Some(selector_address) => match opt_bytes((m.symbol_name_at)(selector_address)) {
            Some(symbol_name) => match spec_selector_name_from_symbol_name(symbol_name) {
                Some(selector) => "init".spec_bytes().is_prefix_of(selector),
                None => false,
            },
            None => false,
        },
        None => false,
    }
}

/// `sel_init`, as bytes: how the name of every selector symbol of the `init` family begins.
pub open spec fn sel_init_bytes() -> Seq<u8> {
    seq![115u8, 101u8, 108u8, 95u8, 105u8, 110u8, 105u8, 116u8]
}

/// Whether the message send `call` has a second parameter that is a constant pointer, or
/// a load of one, to a symbol whose name begins with the eight bytes `sel_init`.
pub open spec fn selector_symbol_begins_with_sel_init<H>(call: CallSsa, m: LookupModel<H>) -> bool {
    &&& call.params@.len() >= 2
    &&& spec_match_constant_pointer_or_load_of_constant_pointer(
        call.params@[1],
        m.ssa_variable_value,
        m.ssa_variable_definition,
    ) matches Some(selector_address)
    &&& opt_bytes((m.symbol_name_at)(selector_address)) matches Some(symbol_name)
    &&& sel_init_bytes().is_prefix_of(symbol_name)
}

/// A message send's selector is in the `init` family exactly when the send has a second
/// parameter that is a constant pointer, or a load of one, to a symbol whose name begins
/// with the eight bytes `sel_init`.  (`sel_intValue`, say, is not in the family.)
pub proof fn lemma_init_family_selectors<H>(call: CallSsa, m: LookupModel<H>)
    ensures
        spec_selector_is_in_init_family(call, m) <==> selector_symbol_begins_with_sel_init(call, m),
{
    lemma_prefix_bytes();
    if call.params@.len() >= 2 {
        if let Some(a) = spec_match_constant_pointer_or_load_of_constant_pointer(
            call.params@[1],
            m.ssa_variable_value,
            m.ssa_variable_definition,
        ) {
            if let Some(sym) = opt_bytes((m.symbol_name_at)(a)) {
                let sel = "sel_".spec_bytes();
                let init = "init".spec_bytes();
                if sel_init_bytes().is_prefix_of(sym) {
                    assert(sym.subrange(0, 4) =~= sel_init_bytes().subrange(0, 4));
                    assert(sel.is_prefix_of(sym));
                    assert(sym.skip(4).subrange(0, 4) =~= sel_init_bytes().subrange(4, 8));
                    assert(init.is_prefix_of(sym.skip(4)));
                }
                if sel.is_prefix_of(sym) && init.is_prefix_of(sym.skip(4)) {
                    assert(sym.subrange(0, 8) =~= sel_init_bytes()) by {
                        assert forall|k: int| 0 <= k < 8 implies sym[k] == sel_init_bytes()[k] by {
                            if k < 4 {
                                assert(sym.subrange(0, 4)[k] == sym[k]);
                            } else {
                                assert(sym.skip(4).subrange(0, 4)[k - 4] == sym[k]);
                            }
                        }
                    }
                }
            }
        }
    }
}

/// The type of the class whose `objc_class_t` symbol stands at `address`.
pub open spec fn spec_class_type_at<H>(address: u64, m: LookupModel<H>) -> Option<H> {
    match opt_bytes((m.symbol_name_at)(address)) {
        Some(symbol_name) => match spec_class_name_from_symbol_name(symbol_name) {
            Some(class_name) => (m.type_by_name)(lossy_utf8(class_name)),
            None => None,
        },
        None => None,
    }
}

/// Whether the selector of the message send `call` is in the `init` family (see the spec
/// function of the same name).
pub fn selector_is_in_init_family<H, N, S, V, D, R, T, Y>(
    call: &CallSsa,
    lookups: &Lookups<N, S, V, D, R, T, Y>,
) -> (r: bool) where
    N: Fn(u64) -> Option<Vec<u8>>,
    S: Fn(u64) -> Option<Vec<u8>>,
    V: Fn(SsaVariable) -> RegisterValue,
    D: Fn(SsaVariable) -> Option<MlilInstruction>,
    R: Fn(Variable) -> Vec<MlilInstruction>,
    T: Fn(&str) -> Option<H>,
    Y: Fn(Variable) -> Option<VariableType<H>>,

    requires
        lookups.total::<H>(),
    ensures
        r ==> call.params@.len() >= 2,
        forall|m: LookupModel<H>| #[trigger] lookups.answered_by(m)
            ==> r == spec_selector_is_in_init_family(*call, m),
{
    if call.params.len() < 2 {
        return false;
    }
    let selector_address = match match_constant_pointer_or_load_of_constant_pointer(
        &call.params[1],
        &lookups.ssa_variable_value,
        &lookups.ssa_variable_definition,
    ) {
        Some(a) => a,
        None => return false,
    };
    let symbol_name = match (lookups.symbol_name_at)(selector_address) {
        Some(n) => n,
        None => return false,
    };
    let selector = match selector_name_from_symbol_name(symbol_name.as_slice()) {
        Some(s) => s,
        None => return false,
    };
    starts_with(selector, "init".as_bytes())
}

/// The type of the class whose `objc_class_t` symbol stands at `address`.
pub fn class_type_at<H, N, S, V, D, R, T, Y>(
    address: u64,
    lookups: &Lookups<N, S, V, D, R, T, Y>,
) -> (r: Option<H>) where
    N: Fn(u64) -> Option<Vec<u8>>,
    S: Fn(u64) -> Option<Vec<u8>>,
    V: Fn(SsaVariable) -> RegisterValue,
    D: Fn(SsaVariable) -> Option<MlilInstruction>,
    R: Fn(Variable) -> Vec<MlilInstruction>,
    T: Fn(&str) -> Option<H>,
    Y: Fn(Variable) -> Option<VariableType<H>>,

    requires
        lookups.total::<H>(),
    ensures
        forall|m: LookupModel<H>| #[trigger] lookups.answered_by(m)
            ==> r == spec_class_type_at(address, m),
{
    let symbol_name = match (lookups.symbol_name_at)(address) {
        Some(n) => n,
        None => return None,
    };
    let class_name = match class_name_from_symbol_name(symbol_name.as_slice()) {
        Some(c) => c,
        None => return None,
    };
    let class_type_name = to_str_lossy(class_name);
    (lookups.type_by_name)(class_type_name.as_str())
}

/// Whether `a` stands at one of the instructions `instrs`, a call to a constant pointer,
/// and names that pointer as its target.
pub open spec fn stands_at_a_call<H>(a: ReturnTypeAdjustment<H>, instrs: Seq<MlilInstruction>) -> bool {
    exists|j: int|
        0 <= j < instrs.len() && a.address == #[trigger] instrs[j].address && spec_call_target(instrs[j])
            == Some(a.target)
}

/// The adjustments that `decide` makes over the instructions `instrs`, in order.
pub open spec fn spec_collect_adjustments<H>(
    instrs: Seq<MlilInstruction>,
    decide: spec_fn(MlilInstruction) -> Option<ReturnTypeAdjustment<H>>,
) -> Seq<ReturnTypeAdjustment<H>>
    decreases instrs.len(),
{
    if instrs.len() == 0 {
        seq![]
    } else {
        let earlier = spec_collect_adjustments(instrs.drop_last(), decide);
        match decide(instrs.last()) {
            Some(adjustment) => earlier.push(adjustment),
            None => earlier,
        }
    }
}

/// Each instruction is decided on by itself: deciding over two lists of instructions in
/// turn (two basic blocks, say) gives the adjustments of deciding over the two together.
pub proof fn lemma_collect_adjustments_append<H>(
    a: Seq<MlilInstruction>,
    b: Seq<MlilInstruction>,
    decide: spec_fn(MlilInstruction) -> Option<ReturnTypeAdjustment<H>>,
)
    ensures
        spec_collect_adjustments(a + b, decide) == spec_collect_adjustments(a, decide)
            + spec_collect_adjustments(b, decide),
    decreases b.len(),
{
    if b.len() == 0 {
        assert(a + b =~= a);
        assert(spec_collect_adjustments(a, decide) + seq![] =~= spec_collect_adjustments(a, decide));
    } else {
        lemma_collect_adjustments_append(a, b.drop_last(), decide);
        assert((a + b).drop_last() =~= a + b.drop_last());
        assert((a + b).last() == b.last());
        let sa = spec_collect_adjustments(a, decide);
        let sb = spec_collect_adjustments(b.drop_last(), decide);
        match decide(b.last()) {
            Some(adj) => {
                assert(sa + sb.push(adj) =~= (sa + sb).push(adj));
            },
            None => {},
        }
    }
}

/// Every adjustment collected over `instrs` is what `decide` makes of one of them; there
/// are at most as many adjustments as instructions.
pub proof fn lemma_collect_adjustments_come_from_instructions<H>(
    instrs: Seq<MlilInstruction>,
    decide: spec_fn(MlilInstruction) -> Option<ReturnTypeAdjustment<H>>,
)
    ensures
        spec_collect_adjustments(instrs, decide).len() <= instrs.len(),
        forall|k: int| 0 <= k < spec_collect_adjustments(instrs, decide).len() ==> exists|j: int|
            0 <= j < instrs.len() && decide(instrs[j]) == Some(
                #[trigger] spec_collect_adjustments(instrs, decide)[k],
            ),
    decreases instrs.len(),
{
    if instrs.len() > 0 {
        let earlier = instrs.drop_last();
        lemma_collect_adjustments_come_from_instructions(earlier, decide);
        let c = spec_collect_adjustments(instrs, decide);
        let e = spec_collect_adjustments(earlier, decide);
        assert forall|k: int| 0 <= k < c.len() implies exists|j: int|
            0 <= j < instrs.len() && decide(instrs[j]) == Some(#[trigger] c[k]) by {
            if k < e.len() {
                let j = choose|j: int| 0 <= j < earlier.len() && decide(earlier[j]) == Some(#[trigger] e[k]);
                assert(instrs[j] == earlier[j]);
            } else {
                assert(decide(instrs[instrs.len() - 1]) == Some(c[k]));
            }
        }
    }
}

/// No decision is lost: every adjustment that `decide` makes of one of the instructions
/// is among those collected over them.
pub proof fn lemma_collect_adjustments_keeps_every_decision<H>(
    instrs: Seq<MlilInstruction>,
    decide: spec_fn(MlilInstruction) -> Option<ReturnTypeAdjustment<H>>,
    j: int,
)
    requires
        0 <= j < instrs.len(),
        decide(instrs[j]) is Some,
    ensures
        spec_collect_adjustments(instrs, decide).contains(decide(instrs[j]).unwrap()),
    decreases instrs.len(),
{
    let earlier = instrs.drop_last();
    let collected = spec_collect_adjustments(instrs, decide);
    let before = spec_collect_adjustments(earlier, decide);
    if j < instrs.len() - 1 {
        assert(earlier[j] == instrs[j]);
        lemma_collect_adjustments_keeps_every_decision(earlier, decide, j);
        let k = choose|k: int| 0 <= k < before.len() && before[k] == decide(instrs[j]).unwrap();
        match decide(instrs.last()) {
            Some(a) => assert(collected[k] == before[k]),
            None => {},
        }
        assert(collected.contains(decide(instrs[j]).unwrap()));
    } else {
        assert(collected[collected.len() - 1] == decide(instrs[j]).unwrap());
    }
}

} // verus!
