//! Removes calls to `objc_retain` / `objc_release` / `objc_autorelease` and their
//! relatives from the low level IL, to simplify the higher level ILs.
use vstd::prelude::*;
use vstd::string::*;

use crate::llil::{Expression, Instruction, LlilInstruction, Register};
use crate::lookup::{answers, opt_bytes, total};
use crate::util::{contains_name, names_view};

verus! {

/// The reference counting functions whose calls are removed.  The `j_` prefixes are for
/// stub functions in the dyld shared cache, added by Binary Ninja's shared cache workflow.
pub open spec fn ignorable_memory_management_functions() -> Seq<Seq<u8>> {
    seq![
        "_objc_autorelease".spec_bytes(),
        "_objc_autoreleaseReturnValue".spec_bytes(),
        "_objc_release".spec_bytes(),
        "_objc_retain".spec_bytes(),
        "_objc_retainAutorelease".spec_bytes(),
        "_objc_retainAutoreleaseReturnValue".spec_bytes(),
        "_objc_retainAutoreleasedReturnValue".spec_bytes(),
        "_objc_retainBlock".spec_bytes(),
        "_objc_unsafeClaimAutoreleasedReturnValue".spec_bytes(),
        "j__objc_autorelease".spec_bytes(),
        "j__objc_autoreleaseReturnValue".spec_bytes(),
        "j__objc_release".spec_bytes(),
        "j__objc_retain".spec_bytes(),
        "j__objc_retainAutorelease".spec_bytes(),
        "j__objc_retainAutoreleaseReturnValue".spec_bytes(),
        "j__objc_retainAutoreleasedReturnValue".spec_bytes(),
        "j__objc_retainBlock".spec_bytes(),
        "j__objc_unsafeClaimAutoreleasedReturnValue".spec_bytes(),
    ]
}

/// The names of `ignorable_memory_management_functions`.
pub fn ignorable_memory_management_function_names() -> (names: Vec<&'static [u8]>)
    ensures
        names_view(names@) == ignorable_memory_management_functions(),
{
    let names = vec![
        "_objc_autorelease".as_bytes(),
        "_objc_autoreleaseReturnValue".as_bytes(),
        "_objc_release".as_bytes(),
        "_objc_retain".as_bytes(),
        "_objc_retainAutorelease".as_bytes(),
        "_objc_retainAutoreleaseReturnValue".as_bytes(),
        "_objc_retainAutoreleasedReturnValue".as_bytes(),
        "_objc_retainBlock".as_bytes(),
        "_objc_unsafeClaimAutoreleasedReturnValue".as_bytes(),
        "j__objc_autorelease".as_bytes(),
        "j__objc_autoreleaseReturnValue".as_bytes(),
        "j__objc_release".as_bytes(),
        "j__objc_retain".as_bytes(),
        "j__objc_retainAutorelease".as_bytes(),
        "j__objc_retainAutoreleaseReturnValue".as_bytes(),
        "j__objc_retainAutoreleasedReturnValue".as_bytes(),
        "j__objc_retainBlock".as_bytes(),
        "j__objc_unsafeClaimAutoreleasedReturnValue".as_bytes(),
    ];
    assert(names_view(names@) =~= ignorable_memory_management_functions());
    names
}

/// The tag placed where a call was removed.
pub const TAG_DESCRIPTION: &'static str = "Removed memory management call";

/// The address that `instr` transfers control to: a call or tail call to a constant
/// pointer, or a `goto`.
pub open spec fn spec_branch_target(instr: Instruction) -> Option<u64> {
    match instr {
        Instruction::Call(Expression::ConstPtr(address)) => Some(address),
        Instruction::TailCall(Expression::ConstPtr(address)) => Some(address),
        Instruction::Goto(target) => Some(target.address),
        _ => None,
    }
}

/// Whether `instr` transfers control to a symbol named as one of the ignorable
/// memory management functions (`symbol_name_at` gives the symbol at an address).
pub open spec fn spec_is_call_to_ignorable_memory_management_function(
    instr: Instruction,
    symbol_name_at: spec_fn(u64) -> Option<Vec<u8>>,
) -> bool {
    match spec_branch_target(instr) {
        Some(target) => match opt_bytes(symbol_name_at(target)) {
            Some(name) => ignorable_memory_management_functions().contains(name),
            None => false,
        },
        None => false,
    }
}

/// A change to the low level IL of a function.
#[derive(PartialEq, Eq, Structural, Clone, Copy, Debug)]
pub enum Edit {
    /// Replace the instruction at `index` by a return through the link register.
    ReturnViaLinkRegister { index: usize, address: u64 },
    /// Replace the instruction at `index` by a no-op.
    Nop { index: usize, address: u64 },
    /// Replace the instruction at `index` by a `goto` to the instruction at `target_index`.
    Goto { index: usize, address: u64, target_index: usize },
    /// Tag the instruction at `address` as a removed memory management call.
    Tag { address: u64 },
}

/// What the pass does to a function: the edits, in order, and whether the SSA form is
/// then generated again.
#[derive(PartialEq, Eq, Debug)]
pub struct MemoryManagementPlan {
    pub edits: Vec<Edit>,
    pub regenerate_ssa_form: bool,
}

/// The edits for the instruction at `idx`:
/// - a tail call to an ignorable function becomes a return through the link register;
/// - a call becomes a no-op;
/// - a `goto` that is the function's first instruction becomes a return (the function
///   can only consist of the jump to the memory management function, which returns to
///   this function's caller);
/// - any other `goto` is a stub call that the shared cache workflow inlined, as
///   `lr = <next instruction>; goto <stub>;`: the load of the link register becomes a
///   no-op and the `goto` jumps to the next instruction instead.  Where that shape or the
///   next instruction is not found, nothing changes.
/// Each instruction that changes is tagged.
pub open spec fn spec_edits_at(
    instrs: Seq<LlilInstruction>,
    idx: int,
    link_register: Register,
    symbol_name_at: spec_fn(u64) -> Option<Vec<u8>>,
    instruction_index_at: spec_fn(u64) -> Option<usize>,
) -> Seq<Edit> {
    let instr = instrs[idx];
    let tag = Edit::Tag { address: instr.address };
    if !spec_is_call_to_ignorable_memory_management_function(instr.instruction, symbol_name_at) {
        seq![]
    } else {
        match instr.instruction {
            Instruction::TailCall(_) => seq![
                Edit::ReturnViaLinkRegister { index: idx as usize, address: instr.address },
                tag,
            ],
            Instruction::Call(_) => seq![Edit::Nop { index: idx as usize, address: instr.address }, tag],
            Instruction::Goto(_) => if idx == 0 {
                seq![Edit::ReturnViaLinkRegister { index: idx as usize, address: instr.address }, tag]
            } else {
                let prev = instrs[idx - 1];
                match prev.instruction {
                    Instruction::SetReg(reg, Expression::ConstPtr(target)) => if reg == link_register {
                        match instruction_index_at(target) {
                            Some(target_index) => seq![
                                Edit::Nop { index: (idx - 1) as usize, address: prev.address },
                                Edit::Goto { index: idx as usize, address: instr.address, target_index },
                                tag,
                            ],
                            None => seq![],
                        }
                    } else {
                        seq![]
                    },
                    _ => seq![],
                }
            },
            _ => seq![tag],
        }
    }
}

/// The edits for the first `n` instructions, in order.
pub open spec fn spec_edits(
    instrs: Seq<LlilInstruction>,
    n: nat,
    link_register: Register,
    symbol_name_at: spec_fn(u64) -> Option<Vec<u8>>,
    instruction_index_at: spec_fn(u64) -> Option<usize>,
) -> Seq<Edit>
    decreases n,
{
    if n == 0 {
        seq![]
    } else {
        spec_edits(instrs, (n - 1) as nat, link_register, symbol_name_at, instruction_index_at)
            + spec_edits_at(instrs, n - 1, link_register, symbol_name_at, instruction_index_at)
    }
}

/// The edits for the whole function; none where the architecture has no link register.
pub open spec fn spec_plan_edits(
    instrs: Seq<LlilInstruction>,
    link_register: Option<Register>,
    symbol_name_at: spec_fn(u64) -> Option<Vec<u8>>,
    instruction_index_at: spec_fn(u64) -> Option<usize>,
) -> Seq<Edit> {
    match link_register {
        Some(lr) => spec_edits(instrs, instrs.len(), lr, symbol_name_at, instruction_index_at),
        None => seq![],
    }
}

/// Whether `instr` transfers control to an ignorable memory management function.
pub fn is_call_to_ignorable_memory_management_function<S: Fn(u64) -> Option<Vec<u8>>>(
    symbol_name_at: &S,
    instr: &Instruction,
) -> (r: bool)
    requires
        total(*symbol_name_at),
    ensures
        forall|symbols: spec_fn(u64) -> Option<Vec<u8>>| #[trigger] answers(*symbol_name_at, symbols)
            ==> r == spec_is_call_to_ignorable_memory_management_function(*instr, symbols),
{
    let target = match instr {
        Instruction::Call(Expression::ConstPtr(address)) => *address,
        Instruction::TailCall(Expression::ConstPtr(address)) => *address,
        Instruction::Goto(target) => target.address,
        _ => return false,
    };
    let symbol = symbol_name_at(target);
    match symbol {
        Some(name) => {
            let names = ignorable_memory_management_function_names();
            contains_name(names.as_slice(), name.as_slice())
        },
        None => false,
    }
}

/// The edits for the instruction at `idx` (see `spec_edits_at`), appended to `edits`.
fn push_edits_at<S: Fn(u64) -> Option<Vec<u8>>, X: Fn(u64) -> Option<usize>>(
    edits: &mut Vec<Edit>,
    instrs: &Vec<LlilInstruction>,
    idx: usize,
    link_register: Register,
    symbol_name_at: &S,
    instruction_index_at: &X,
)
    requires
        idx < instrs@.len(),
        total(*symbol_name_at),
        total(*instruction_index_at),
    ensures
        forall|symbols: spec_fn(u64) -> Option<Vec<u8>>, indices: spec_fn(u64) -> Option<usize>|
            #![trigger answers(*symbol_name_at, symbols), answers(*instruction_index_at, indices)]
            answers(*symbol_name_at, symbols) && answers(*instruction_index_at, indices)
                ==> final(edits)@ == old(edits)@ + spec_edits_at(
                    instrs@,
                    idx as int,
                    link_register,
                    symbols,
                    indices,
                ),
{
    let instr = &instrs[idx];
    if !is_call_to_ignorable_memory_management_function(symbol_name_at, &instr.instruction) {
        assert(old(edits)@ + seq![] =~= old(edits)@);
        return;
    }
    let ghost start = edits@;
    match &instr.instruction {
        Instruction::TailCall(_) => {
            edits.push(Edit::ReturnViaLinkRegister { index: idx, address: instr.address });
        },
        Instruction::Call(_) => {
            edits.push(Edit::Nop { index: idx, address: instr.address });
        },
        Instruction::Goto(_) => {
            if idx == 0 {
                edits.push(Edit::ReturnViaLinkRegister { index: idx, address: instr.address });
            } else {
                let prev = &instrs[idx - 1];
                let target = match &prev.instruction {
                    Instruction::SetReg(reg, Expression::ConstPtr(target)) => {
                        if *reg == link_register {
                            *target
                        } else {
                            assert(start + seq![] =~= start);
                            return;
                        }
                    },
                    _ => {
                        assert(start + seq![] =~= start);
                        return;
                    },
                };
                let target_index = match instruction_index_at(target) {
                    Some(t) => t,
                    None => {
                        assert(start + seq![] =~= start);
                        return;
                    },
                };
                edits.push(Edit::Nop { index: idx - 1, address: prev.address });
                edits.push(Edit::Goto { index: idx, address: instr.address, target_index });
            }
        },
        _ => {},
    }
    edits.push(Edit::Tag { address: instr.address });
    proof {
        assert forall|symbols: spec_fn(u64) -> Option<Vec<u8>>, indices: spec_fn(u64) -> Option<usize>|
            answers(*symbol_name_at, symbols) && answers(*instruction_index_at, indices)
            implies #[trigger] edits@ =~= start + spec_edits_at(instrs@, idx as int, link_register, symbols, indices)
        by {
        }
    }
}

/// What the pass does to a function whose low level IL is `instrs`.  `link_register` is
/// the architecture's link register, `symbol_name_at` gives the full name of the symbol at
/// an address, and `instruction_index_at` the index of the instruction at an address.
pub fn action<S: Fn(u64) -> Option<Vec<u8>>, X: Fn(u64) -> Option<usize>>(
    instrs: &Vec<LlilInstruction>,
    link_register: Option<Register>,
    symbol_name_at: &S,
    instruction_index_at: &X,
) -> (plan: MemoryManagementPlan)
    requires
        total(*symbol_name_at),
        total(*instruction_index_at),
    ensures
        link_register is None ==> plan.edits@.len() == 0 && !plan.regenerate_ssa_form,
        plan.regenerate_ssa_form == (plan.edits@.len() > 0),
        forall|symbols: spec_fn(u64) -> Option<Vec<u8>>, indices: spec_fn(u64) -> Option<usize>|
            #![trigger answers(*symbol_name_at, symbols), answers(*instruction_index_at, indices)]
            answers(*symbol_name_at, symbols) && answers(*instruction_index_at, indices)
                ==> plan.edits@ == spec_plan_edits(instrs@, link_register, symbols, indices),
{
    let mut edits: Vec<Edit> = Vec::new();
    let lr = match link_register {
        Some(lr) => lr,
        None => return MemoryManagementPlan { edits, regenerate_ssa_form: false },
    };
    let mut idx: usize = 0;
    while idx < instrs.len()
        invariant
            idx <= instrs@.len(),
            total(*symbol_name_at),
            total(*instruction_index_at),
            forall|symbols: spec_fn(u64) -> Option<Vec<u8>>, indices: spec_fn(u64) -> Option<usize>|
                #![trigger answers(*symbol_name_at, symbols), answers(*instruction_index_at, indices)]
                answers(*symbol_name_at, symbols) && answers(*instruction_index_at, indices)
                    ==> edits@ == spec_edits(instrs@, idx as nat, lr, symbols, indices),
        decreases instrs@.len() - idx,
    {
        push_edits_at(&mut edits, instrs, idx, lr, symbol_name_at, instruction_index_at);
        idx = idx + 1;
    }
    let regenerate_ssa_form = edits.len() > 0;
    MemoryManagementPlan { edits, regenerate_ssa_form }
}

/// Whether the instruction at `i` transfers control to an ignorable memory management
/// function.
pub open spec fn is_memory_management_call(
    instrs: Seq<LlilInstruction>,
    symbol_name_at: spec_fn(u64) -> Option<Vec<u8>>,
    i: int,
) -> bool {
    0 <= i < instrs.len() && spec_is_call_to_ignorable_memory_management_function(
        instrs[i].instruction,
        symbol_name_at,
    )
}

/// Whether the instruction at `i` loads the link register with a constant right before a
/// `goto` to an ignorable memory management function.
pub open spec fn is_link_register_load_before_memory_management_goto(
    instrs: Seq<LlilInstruction>,
    link_register: Register,
    symbol_name_at: spec_fn(u64) -> Option<Vec<u8>>,
    i: int,
) -> bool {
    &&& 0 <= i
    &&& is_memory_management_call(instrs, symbol_name_at, i + 1)
    &&& instrs[i + 1].instruction is Goto
    &&& instrs[i].instruction matches Instruction::SetReg(reg, Expression::ConstPtr(_))
        && reg == link_register
}

/// Whether `edit` keeps to the pass's purpose: a replaced instruction transfers control
/// to an ignorable memory management function, or is the load of the link register with
/// a constant right before such a `goto`; a tag marks an instruction that transfers
/// control to an ignorable memory management function.
pub open spec fn edit_keeps_to_memory_management_calls(
    instrs: Seq<LlilInstruction>,
    link_register: Register,
    symbol_name_at: spec_fn(u64) -> Option<Vec<u8>>,
    edit: Edit,
) -> bool {
    match edit {
        Edit::ReturnViaLinkRegister { index, address } => {
            &&& is_memory_management_call(instrs, symbol_name_at, index as int)
            &&& instrs[index as int].address == address
        },
        Edit::Goto { index, address, .. } => {
            &&& is_memory_management_call(instrs, symbol_name_at, index as int)
            &&& instrs[index as int].instruction is Goto
            &&& instrs[index as int].address == address
        },
        Edit::Nop { index, address } => {
            &&& is_memory_management_call(instrs, symbol_name_at, index as int)
                || is_link_register_load_before_memory_management_goto(
                instrs,
                link_register,
                symbol_name_at,
                index as int,
            )
            &&& instrs[index as int].address == address
        },
        Edit::Tag { address } => exists|i: int|
            #[trigger] is_memory_management_call(instrs, symbol_name_at, i) && instrs[i].address == address,
    }
}

proof fn lemma_edits_at_keep_to_memory_management_calls(
    instrs: Seq<LlilInstruction>,
    i: int,
    link_register: Register,
    symbol_name_at: spec_fn(u64) -> Option<Vec<u8>>,
    instruction_index_at: spec_fn(u64) -> Option<usize>,
)
    requires
        0 <= i < instrs.len(),
        instrs.len() <= usize::MAX,
    ensures
        forall|e: Edit| #[trigger] spec_edits_at(instrs, i, link_register, symbol_name_at, instruction_index_at).contains(e)
            ==> edit_keeps_to_memory_management_calls(instrs, link_register, symbol_name_at, e),
{
    let here = spec_edits_at(instrs, i, link_register, symbol_name_at, instruction_index_at);
    assert forall|e: Edit| #[trigger] here.contains(e)
        implies edit_keeps_to_memory_management_calls(instrs, link_register, symbol_name_at, e) by {
        let k = choose|k: int| 0 <= k < here.len() && here[k] == e;
        assert(is_memory_management_call(instrs, symbol_name_at, i));
    }
}

proof fn lemma_edits_keep_to_memory_management_calls(
    instrs: Seq<LlilInstruction>,
    n: nat,
    link_register: Register,
    symbol_name_at: spec_fn(u64) -> Option<Vec<u8>>,
    instruction_index_at: spec_fn(u64) -> Option<usize>,
)
    requires
        n <= instrs.len(),
        instrs.len() <= usize::MAX,
    ensures
        forall|e: Edit| #[trigger] spec_edits(instrs, n, link_register, symbol_name_at, instruction_index_at).contains(e)
            ==> edit_keeps_to_memory_management_calls(instrs, link_register, symbol_name_at, e),
    decreases n,
{
    if n > 0 {
        lemma_edits_keep_to_memory_management_calls(instrs, (n - 1) as nat, link_register, symbol_name_at, instruction_index_at);
        lemma_edits_at_keep_to_memory_management_calls(instrs, n - 1, link_register, symbol_name_at, instruction_index_at);
        let earlier = spec_edits(instrs, (n - 1) as nat, link_register, symbol_name_at, instruction_index_at);
        let here = spec_edits_at(instrs, n - 1, link_register, symbol_name_at, instruction_index_at);
        let all = spec_edits(instrs, n, link_register, symbol_name_at, instruction_index_at);
        assert(all == earlier + here);
        assert forall|e: Edit| #[trigger] all.contains(e)
            implies edit_keeps_to_memory_management_calls(instrs, link_register, symbol_name_at, e) by {
            let k = choose|k: int| 0 <= k < all.len() && all[k] == e;
            if k < earlier.len() {
                assert(earlier.contains(e));
            } else {
                assert(here[k - earlier.len()] == e);
                assert(here.contains(e));
            }
        }
    }
}

/// The pass keeps to memory management calls: every edit it makes replaces or tags an
/// instruction that transfers control to an ignorable memory management function, except
/// for a no-op in place of the load of the link register right before such a `goto`.
/// Without a link register it makes no edit.
pub proof fn lemma_only_memory_management_calls_are_edited(
    instrs: Seq<LlilInstruction>,
    link_register: Option<Register>,
    symbol_name_at: spec_fn(u64) -> Option<Vec<u8>>,
    instruction_index_at: spec_fn(u64) -> Option<usize>,
)
    requires
        instrs.len() <= usize::MAX,
    ensures
        link_register is None ==> spec_plan_edits(instrs, link_register, symbol_name_at, instruction_index_at).len() == 0,
        forall|e: Edit| #[trigger] spec_plan_edits(instrs, link_register, symbol_name_at, instruction_index_at).contains(e)
            ==> edit_keeps_to_memory_management_calls(instrs, link_register.unwrap(), symbol_name_at, e),
{
    if let Some(lr) = link_register {
        lemma_edits_keep_to_memory_management_calls(instrs, instrs.len(), lr, symbol_name_at, instruction_index_at);
    }
}

proof fn lemma_edits_include_edits_at(
    instrs: Seq<LlilInstruction>,
    n: nat,
    i: int,
    link_register: Register,
    symbol_name_at: spec_fn(u64) -> Option<Vec<u8>>,
    instruction_index_at: spec_fn(u64) -> Option<usize>,
)
    requires
        0 <= i < n <= instrs.len(),
    ensures
        forall|e: Edit| #[trigger] spec_edits_at(instrs, i, link_register, symbol_name_at, instruction_index_at).contains(e)
            ==> spec_edits(instrs, n, link_register, symbol_name_at, instruction_index_at).contains(e),
    decreases n,
{
    let earlier = spec_edits(instrs, (n - 1) as nat, link_register, symbol_name_at, instruction_index_at);
    let here = spec_edits_at(instrs, n - 1, link_register, symbol_name_at, instruction_index_at);
    let all = spec_edits(instrs, n, link_register, symbol_name_at, instruction_index_at);
    assert(all == earlier + here);
    if i < n - 1 {
        lemma_edits_include_edits_at(instrs, (n - 1) as nat, i, link_register, symbol_name_at, instruction_index_at);
    }
    assert forall|e: Edit| #[trigger] spec_edits_at(instrs, i, link_register, symbol_name_at, instruction_index_at).contains(e)
        implies all.contains(e) by {
        if i < n - 1 {
            assert(earlier.contains(e));
            let k = choose|k: int| 0 <= k < earlier.len() && earlier[k] == e;
            assert(all[k] == e);
        } else {
            let k = choose|k: int| 0 <= k < here.len() && here[k] == e;
            assert(all[earlier.len() + k] == e);
        }
    }
}

/// Calls to each reference counting function are removed: a call or tail call to a constant
/// pointer whose symbol is named `objc_retain`, `objc_release`, `objc_autorelease`, or one
/// of their relatives (or their `j_` stubs) becomes a no-op (a call) or a return through
/// the link register (a tail call), and is tagged.
pub proof fn lemma_reference_counting_calls_are_removed(
    instrs: Seq<LlilInstruction>,
    link_register: Register,
    symbol_name_at: spec_fn(u64) -> Option<Vec<u8>>,
    instruction_index_at: spec_fn(u64) -> Option<usize>,
    i: int,
    address: u64,
    name: &str,
)
    requires
        0 <= i < instrs.len() <= usize::MAX,
        instrs[i].instruction == Instruction::Call(Expression::ConstPtr(address))
            || instrs[i].instruction == Instruction::TailCall(Expression::ConstPtr(address)),
        opt_bytes(symbol_name_at(address)) == Some(name.spec_bytes()),
        seq![
            "_objc_autorelease"@,
            "_objc_autoreleaseReturnValue"@,
            "_objc_release"@,
            "_objc_retain"@,
            "_objc_retainAutorelease"@,
            "_objc_retainAutoreleaseReturnValue"@,
            "_objc_retainAutoreleasedReturnValue"@,
            "_objc_retainBlock"@,
            "_objc_unsafeClaimAutoreleasedReturnValue"@,
            "j__objc_autorelease"@,
            "j__objc_autoreleaseReturnValue"@,
            "j__objc_release"@,
            "j__objc_retain"@,
            "j__objc_retainAutorelease"@,
            "j__objc_retainAutoreleaseReturnValue"@,
            "j__objc_retainAutoreleasedReturnValue"@,
            "j__objc_retainBlock"@,
            "j__objc_unsafeClaimAutoreleasedReturnValue"@,
        ].contains(name@),
    ensures
        ({
            let plan = spec_plan_edits(instrs, Some(link_register), symbol_name_at, instruction_index_at);
            &&& instrs[i].instruction is Call
                ==> plan.contains(Edit::Nop { index: i as usize, address: instrs[i].address })
            &&& instrs[i].instruction is TailCall
                ==> plan.contains(Edit::ReturnViaLinkRegister { index: i as usize, address: instrs[i].address })
            &&& plan.contains(Edit::Tag { address: instrs[i].address })
        }),
{
    let listed = seq![
            "_objc_autorelease"@,
            "_objc_autoreleaseReturnValue"@,
            "_objc_release"@,
            "_objc_retain"@,
            "_objc_retainAutorelease"@,
            "_objc_retainAutoreleaseReturnValue"@,
            "_objc_retainAutoreleasedReturnValue"@,
            "_objc_retainBlock"@,
            "_objc_unsafeClaimAutoreleasedReturnValue"@,
            "j__objc_autorelease"@,
            "j__objc_autoreleaseReturnValue"@,
            "j__objc_release"@,
            "j__objc_retain"@,
            "j__objc_retainAutorelease"@,
            "j__objc_retainAutoreleaseReturnValue"@,
            "j__objc_retainAutoreleasedReturnValue"@,
            "j__objc_retainBlock"@,
            "j__objc_unsafeClaimAutoreleasedReturnValue"@,
        ];
    let k = choose|k: int| 0 <= k < listed.len() && listed[k] == name@;
    assert(ignorable_memory_management_functions()[k] == name.spec_bytes());
    assert(ignorable_memory_management_functions().contains(name.spec_bytes()));
    lemma_memory_management_calls_are_removed(instrs, link_register, symbol_name_at, instruction_index_at, i);
}

/// The pass removes the memory management calls: given a link register, every call to an
/// ignorable memory management function becomes a no-op, every tail call to one, and a
/// `goto` to one that opens the function, becomes a return through the link register,
/// and each of them is tagged.
pub proof fn lemma_memory_management_calls_are_removed(
    instrs: Seq<LlilInstruction>,
    link_register: Register,
    symbol_name_at: spec_fn(u64) -> Option<Vec<u8>>,
    instruction_index_at: spec_fn(u64) -> Option<usize>,
    i: int,
)
    requires
        is_memory_management_call(instrs, symbol_name_at, i),
        instrs.len() <= usize::MAX,
    ensures
        ({
            let plan = spec_plan_edits(instrs, Some(link_register), symbol_name_at, instruction_index_at);
            &&& instrs[i].instruction is Call
                ==> plan.contains(Edit::Nop { index: i as usize, address: instrs[i].address })
            &&& (instrs[i].instruction is TailCall || (i == 0 && instrs[i].instruction is Goto))
                ==> plan.contains(Edit::ReturnViaLinkRegister { index: i as usize, address: instrs[i].address })
            &&& (instrs[i].instruction is Call || instrs[i].instruction is TailCall || i == 0)
                ==> plan.contains(Edit::Tag { address: instrs[i].address })
        }),
{
    lemma_edits_include_edits_at(instrs, instrs.len(), i, link_register, symbol_name_at, instruction_index_at);
    let here = spec_edits_at(instrs, i, link_register, symbol_name_at, instruction_index_at);
    if instrs[i].instruction is Call || instrs[i].instruction is TailCall || (i == 0 && instrs[i].instruction is Goto) {
        assert(here.contains(here[0]));
        assert(here.contains(here[1]));
    }
}

} // verus!
