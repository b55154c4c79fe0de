//! What the export of an operation changes besides the output: which pointer
//! types are known, and whether the module needs the attribute group of
//! convergent calls.
use vstd::prelude::*;

use crate::calls::lowered_intrinsic;
use crate::config::NvvmIrDialect;
use crate::ir::{GepIndexAttr, Operation, Type, Value};
use crate::llvm_op::LlvmOp;
use crate::saturating::Instruction;
use crate::state::Printer;

verus! {

/// Whether an operation is exported as a convergent call: a direct call of a
/// convergent intrinsic, or convergent assembly.
pub open spec fn is_convergent(dialect: Option<NvvmIrDialect>, op: Operation) -> bool {
    match LlvmOp::of_type(op.op_type@) {
        Some(LlvmOp::Call) => lowered_intrinsic(dialect, op.attrs) is None
            && op.attrs->Call_callee is Direct && op.attrs->Call_convergent,
        Some(LlvmOp::InlineAsm) => op.attrs->InlineAsm_convergent,
        Some(LlvmOp::InlineAsmMulti) => op.attrs->InlineAsm_convergent,
        _ => false,
    }
}

/// Whether nothing was learned of pointers and nothing was marked between `p`
/// and `q`, unless `q` was stopped.
#[verifier::opaque]
pub open spec fn steady(p: Printer, q: Printer) -> bool {
    q.error is None ==> q.pointer_types == p.pointer_types && q.convergent_used
        == p.convergent_used
}

/// The value whose pointer type the export of an operation may record: the
/// result of an allocation, an address computation or a cast.
pub open spec fn recorded(op: Operation) -> Option<u64> {
    match LlvmOp::of_type(op.op_type@) {
        Some(kind) => if kind is Alloca || kind is GetElementPtr || kind.cast() is Some {
            Some(op.results@[0].id)
        } else {
            None
        },
        None => None,
    }
}

/// Whether nothing was learned of pointers but the type of `id`, if that is a
/// value, and the module was marked exactly if `convergent` says so, unless `q`
/// was stopped.
#[verifier::opaque]
pub open spec fn affects(p: Printer, q: Printer, id: Option<u64>, convergent: bool) -> bool {
    q.error is None ==> {
        &&& match id {
            Some(i) => q.pointer_types.remove(i) == p.pointer_types.remove(i),
            None => q.pointer_types == p.pointer_types,
        }
        &&& q.convergent_used == (p.convergent_used || convergent)
    }
}

/// Nothing changes between a printer and itself.
proof fn lemma_steady_self(p: Printer)
    ensures
        steady(p, p),
{
    reveal(steady);
}

/// Printing a text changes nothing else.
broadcast proof fn lemma_text_steady(root: Printer, p: Printer, s: Seq<char>)
    requires
        #[trigger] steady(root, p),
    ensures
        steady(root, #[trigger] p.text(s)),
{
    reveal(steady);
}

/// Stopping changes nothing else.
broadcast proof fn lemma_fail_steady(root: Printer, p: Printer, message: Seq<char>)
    requires
        #[trigger] steady(root, p),
    ensures
        steady(root, #[trigger] p.fail(message)),
{
    reveal(steady);
}

/// Printing what may have no spelling changes nothing else.
broadcast proof fn lemma_spelling_steady(
    root: Printer,
    p: Printer,
    r: Result<Seq<char>, Seq<char>>,
)
    requires
        #[trigger] steady(root, p),
    ensures
        steady(root, #[trigger] p.spelling(r)),
{
    broadcast use {lemma_text_steady, lemma_fail_steady};

}

/// Printing a type changes nothing else.
broadcast proof fn lemma_ty_steady(root: Printer, p: Printer, ty: Type)
    requires
        #[trigger] steady(root, p),
    ensures
        steady(root, #[trigger] p.ty(ty)),
{
    broadcast use lemma_spelling_steady;

}

/// Printing a value changes nothing else.
broadcast proof fn lemma_value_steady(
    root: Printer,
    p: Printer,
    names: Map<u64, Seq<char>>,
    value: Value,
)
    requires
        #[trigger] steady(root, p),
    ensures
        steady(root, #[trigger] p.value(names, value)),
{
    broadcast use lemma_text_steady;

}

/// Printing a value behind its type changes nothing else.
broadcast proof fn lemma_typed_value_steady(
    root: Printer,
    p: Printer,
    names: Map<u64, Seq<char>>,
    value: Value,
)
    requires
        #[trigger] steady(root, p),
    ensures
        steady(root, #[trigger] p.typed_value(names, value)),
{
    broadcast use {lemma_text_steady, lemma_ty_steady, lemma_value_steady};

}

/// Printing what may have no spelling behind a separator changes nothing else.
broadcast proof fn lemma_spelling_behind_steady(
    root: Printer,
    p: Printer,
    separator: Seq<char>,
    r: Result<Seq<char>, Seq<char>>,
)
    requires
        #[trigger] steady(root, p),
    ensures
        steady(root, #[trigger] p.spelling_behind(separator, r)),
{
    broadcast use {lemma_text_steady, lemma_fail_steady};

}

/// Beginning a definition changes nothing else.
broadcast proof fn lemma_definition_steady(
    root: Printer,
    p: Printer,
    names: Map<u64, Seq<char>>,
    result: Value,
    head: Seq<char>,
)
    requires
        #[trigger] steady(root, p),
    ensures
        steady(root, #[trigger] p.definition(names, result, head)),
{
    broadcast use lemma_text_steady;

}

/// Casting a pointer changes nothing else.
broadcast proof fn lemma_pointer_cast_steady(
    root: Printer,
    p: Printer,
    cast_op: Seq<char>,
    from: Seq<char>,
    name: Seq<char>,
    to: Seq<char>,
)
    requires
        #[trigger] steady(root, p),
    ensures
        steady(root, #[trigger] p.pointer_cast(cast_op, from, name, to)),
{
    broadcast use lemma_text_steady;

    let numbered = if p.error is Some {
        p
    } else {
        Printer { next_cast: p.next_cast + 1, ..p }
    };
    assert(steady(root, numbered)) by {
        reveal(steady);
    }
}

/// Making a pointer operand usable changes nothing else.
broadcast proof fn lemma_pointer_operand_steady(
    root: Printer,
    p: Printer,
    names: Map<u64, Seq<char>>,
    ptr: Value,
    pointee: Type,
    addrspace: u32,
)
    requires
        #[trigger] steady(root, p),
    ensures
        steady(root, #[trigger] p.pointer_operand(names, ptr, pointee, addrspace)),
{
    broadcast use {lemma_fail_steady, lemma_pointer_cast_steady};

}

/// Coercing a pointer changes nothing else.
broadcast proof fn lemma_coerce_pointer_steady(
    root: Printer,
    p: Printer,
    names: Map<u64, Seq<char>>,
    value: Value,
    target: Seq<char>,
)
    requires
        #[trigger] steady(root, p),
    ensures
        steady(root, #[trigger] p.coerce_pointer(names, value, target)),
{
    broadcast use {lemma_fail_steady, lemma_pointer_cast_steady};

}

/// Printing values changes nothing else.
broadcast proof fn lemma_typed_values_steady(
    root: Printer,
    p: Printer,
    names: Map<u64, Seq<char>>,
    values: Seq<Value>,
    k: nat,
)
    requires
        #[trigger] steady(root, p),
    ensures
        steady(root, #[trigger] p.typed_values(names, values, k)),
    decreases k,
{
    broadcast use {lemma_text_steady, lemma_typed_value_steady};

    if k > 0 {
        lemma_typed_values_steady(root, p, names, values, (k - 1) as nat);
    }
}

/// Printing numbers changes nothing else.
broadcast proof fn lemma_numbers_steady(
    root: Printer,
    p: Printer,
    list: Seq<u32>,
    k: nat,
)
    requires
        #[trigger] steady(root, p),
    ensures
        steady(root, #[trigger] p.numbers(list, k)),
    decreases k,
{
    broadcast use lemma_text_steady;

    if k > 0 {
        lemma_numbers_steady(root, p, list, (k - 1) as nat);
    }
}

/// Printing indices changes nothing else.
broadcast proof fn lemma_gep_indices_steady(
    root: Printer,
    p: Printer,
    indices: Seq<GepIndexAttr>,
    operands: Seq<Value>,
    names: Map<u64, Seq<char>>,
    k: nat,
)
    requires
        #[trigger] steady(root, p),
    ensures
        steady(root, #[trigger] p.gep_indices(indices, operands, names, k)),
    decreases k,
{
    broadcast use {lemma_text_steady, lemma_typed_value_steady};

    if k > 0 {
        lemma_gep_indices_steady(root, p, indices, operands, names, (k - 1) as nat);
    }
}

/// Printing a pointer operand changes nothing else.
broadcast proof fn lemma_typed_pointer_steady(
    root: Printer,
    p: Printer,
    pointee: Type,
    addrspace: u32,
    name: Seq<char>,
)
    requires
        #[trigger] steady(root, p),
    ensures
        steady(root, #[trigger] p.typed_pointer(pointee, addrspace, name)),
{
    broadcast use {lemma_text_steady, lemma_spelling_steady};

}

/// Printing a pointer operand behind a comma changes nothing else.
broadcast proof fn lemma_next_typed_pointer_steady(
    root: Printer,
    p: Printer,
    pointee: Type,
    addrspace: u32,
    name: Seq<char>,
)
    requires
        #[trigger] steady(root, p),
    ensures
        steady(root, #[trigger] p.next_typed_pointer(pointee, addrspace, name)),
{
    broadcast use {lemma_text_steady, lemma_spelling_behind_steady};

}

/// Ending an atomic instruction changes nothing else.
broadcast proof fn lemma_atomic_tail_steady(
    root: Printer,
    p: Printer,
    syncscope: Seq<char>,
    ordering: Seq<char>,
)
    requires
        #[trigger] steady(root, p),
    ensures
        steady(root, #[trigger] p.atomic_tail(syncscope, ordering)),
{
    broadcast use lemma_text_steady;

}

/// Extracting results changes nothing else.
broadcast proof fn lemma_extractions_steady(
    root: Printer,
    p: Printer,
    results: Seq<Value>,
    names: Map<u64, Seq<char>>,
    struct_type: Seq<char>,
    source: Seq<char>,
    k: nat,
)
    requires
        #[trigger] steady(root, p),
    ensures
        steady(root, #[trigger] p.extractions(results, names, struct_type, source, k)),
    decreases k,
{
    broadcast use {lemma_text_steady, lemma_definition_steady};

    if k > 0 {
        lemma_extractions_steady(root, p, results, names, struct_type, source, (k - 1) as nat);
    }
}

/// Printing instructions changes nothing else.
broadcast proof fn lemma_instructions_steady(
    root: Printer,
    p: Printer,
    list: Seq<Instruction>,
    k: nat,
)
    requires
        #[trigger] steady(root, p),
    ensures
        steady(root, #[trigger] p.instructions(list, k)),
    decreases k,
{
    broadcast use lemma_text_steady;

    if k > 0 {
        lemma_instructions_steady(root, p, list, (k - 1) as nat);
    }
}

/// Nothing but the output changes in all these steps.
broadcast group group_steady {
    lemma_text_steady,
    lemma_fail_steady,
    lemma_spelling_steady,
    lemma_ty_steady,
    lemma_value_steady,
    lemma_typed_value_steady,
    lemma_spelling_behind_steady,
    lemma_definition_steady,
    lemma_pointer_cast_steady,
    lemma_pointer_operand_steady,
    lemma_coerce_pointer_steady,
    lemma_typed_values_steady,
    lemma_numbers_steady,
    lemma_gep_indices_steady,
    lemma_typed_pointer_steady,
    lemma_next_typed_pointer_steady,
    lemma_atomic_tail_steady,
    lemma_extractions_steady,
    lemma_instructions_steady,
}

/// A steady step affects nothing.
proof fn lemma_steady_affects(p: Printer, q: Printer, id: Option<u64>)
    requires
        steady(p, q),
    ensures
        affects(p, q, id, false),
{
    reveal(steady);
    reveal(affects);
}

/// Recording a type behind steady steps affects what it is recorded for.
broadcast proof fn lemma_record_affects(
    root: Printer,
    p: Printer,
    id: u64,
    r: Result<Seq<char>, Seq<char>>,
)
    requires
        #[trigger] steady(root, p),
    ensures
        affects(root, #[trigger] p.record_pointer(id, r), Some(id), false),
{
    reveal(steady);
    reveal(affects);
    let q = p.record_pointer(id, r);
    if q.error is None {
        assert(q.pointer_types.remove(id) =~= root.pointer_types.remove(id));
    }
}

/// Ending a call behind steady steps affects the mark.
broadcast proof fn lemma_end_call_affects(
    root: Printer,
    p: Printer,
    convergent: bool,
    id: Option<u64>,
)
    requires
        #[trigger] steady(root, p),
    ensures
        #[trigger] affects(root, p.end_call(convergent), id, convergent),
{
    reveal(steady);
    reveal(affects);
}

/// A text behind it changes nothing more.
proof fn lemma_text_affects(
    root: Printer,
    p: Printer,
    s: Seq<char>,
    id: Option<u64>,
    convergent: bool,
)
    requires
        affects(root, p, id, convergent),
    ensures
        affects(root, p.text(s), id, convergent),
{
    reveal(affects);
}

/// Extractions behind it change nothing more.
proof fn lemma_extractions_affect(
    root: Printer,
    p: Printer,
    results: Seq<Value>,
    names: Map<u64, Seq<char>>,
    struct_type: Seq<char>,
    source: Seq<char>,
    k: nat,
    id: Option<u64>,
    convergent: bool,
)
    requires
        affects(root, p, id, convergent),
    ensures
        affects(
            root,
            p.extractions(results, names, struct_type, source, k),
            id,
            convergent,
        ),
{
    broadcast use group_steady;

    lemma_steady_self(p);
    reveal(steady);
    reveal(affects);
    crate::progress::lemma_extends_self(p);
    crate::progress::lemma_extractions(p, p, results, names, struct_type, source, k);
    reveal(crate::progress::extends);
}

/// Terminators affect nothing.
proof fn lemma_terminators_affect(
    p: Printer,
    kind: LlvmOp,
    op: Operation,
    names: Map<u64, Seq<char>>,
    labels: Map<u64, Seq<char>>,
    n: nat,
)
    requires
        LlvmOp::of_type(op.op_type@) == Some(kind),
        kind.is_terminator(),
    ensures
        affects(p, p.operation(op, names, labels, n), recorded(op), false),
{
    broadcast use group_steady;

    reveal(Printer::operation);
    lemma_steady_self(p);
    lemma_steady_affects(p, p.operation(op, names, labels, n), recorded(op));
}

/// Of memory operations, allocations and address computations record the type of
/// their result.
proof fn lemma_memory_affects(
    p: Printer,
    kind: LlvmOp,
    op: Operation,
    names: Map<u64, Seq<char>>,
    labels: Map<u64, Seq<char>>,
    n: nat,
)
    requires
        LlvmOp::of_type(op.op_type@) == Some(kind),
        kind.is_memory(),
    ensures
        affects(p, p.operation(op, names, labels, n), recorded(op), false),
{
    broadcast use {group_steady, lemma_record_affects};

    reveal(Printer::operation);
    lemma_steady_self(p);
    if kind is Load || kind is Store {
        lemma_steady_affects(p, p.operation(op, names, labels, n), recorded(op));
    }
}

/// Atomic operations affect nothing.
proof fn lemma_atomics_affect(
    p: Printer,
    kind: LlvmOp,
    op: Operation,
    names: Map<u64, Seq<char>>,
    labels: Map<u64, Seq<char>>,
    n: nat,
)
    requires
        LlvmOp::of_type(op.op_type@) == Some(kind),
        kind.is_atomic(),
    ensures
        affects(p, p.operation(op, names, labels, n), recorded(op), false),
{
    broadcast use group_steady;

    reveal(Printer::operation);
    lemma_steady_self(p);
    lemma_steady_affects(p, p.operation(op, names, labels, n), recorded(op));
}

/// Casts to pointers may record the type of their result.
proof fn lemma_casts_affect(
    p: Printer,
    kind: LlvmOp,
    op: Operation,
    names: Map<u64, Seq<char>>,
    labels: Map<u64, Seq<char>>,
    n: nat,
)
    requires
        LlvmOp::of_type(op.op_type@) == Some(kind),
        kind.cast() is Some && kind.binop() is None,
    ensures
        affects(p, p.operation(op, names, labels, n), recorded(op), false),
{
    broadcast use {group_steady, lemma_record_affects};

    reveal(Printer::operation);
    lemma_steady_self(p);
    let id = recorded(op);
    let (result, value) = (op.results@[0], op.operands@[0]);
    let begun = p.definition(names, result, kind.cast().unwrap());
    let typed = crate::state::typed_pointers(p.dialect);
    let from = if typed && value.ty.is_pointer() {
        begun.spelling(p.pointer_value_type(value))
    } else {
        begun.ty(value.ty)
    };
    let to = from.text(" "@).value(names, value).text(" to "@).ty(result.ty);
    if typed && result.ty.is_pointer() {
        let recorded = to.record_pointer(result.id, result.ty.spelled());
        assert(affects(p, recorded, id, false));
        lemma_text_affects(p, recorded, "\n"@, id, false);
    } else {
        assert(steady(p, to.text("\n"@)));
        lemma_steady_affects(p, to.text("\n"@), id);
    }
}

/// All other operations but calls affect nothing.
proof fn lemma_scalars_affect(
    p: Printer,
    kind: LlvmOp,
    op: Operation,
    names: Map<u64, Seq<char>>,
    labels: Map<u64, Seq<char>>,
    n: nat,
)
    requires
        LlvmOp::of_type(op.op_type@) == Some(kind),
        !kind.is_terminator() && !kind.is_memory() && !kind.is_atomic() && !kind.is_call(),
    ensures
        affects(p, p.operation(op, names, labels, n), recorded(op), false),
{
    broadcast use group_steady;

    if kind.cast() is Some {
        lemma_casts_affect(p, kind, op, names, labels, n);
    } else {
        reveal(Printer::operation);
        lemma_steady_self(p);
        lemma_steady_affects(p, p.operation(op, names, labels, n), recorded(op));
    }
}

/// Calls mark the module where they are convergent.
proof fn lemma_calls_affect(
    p: Printer,
    op: Operation,
    names: Map<u64, Seq<char>>,
    n: nat,
    id: Option<u64>,
)
    ensures
        affects(
            p,
            p.call(op, names, n),
            id,
            lowered_intrinsic(p.dialect, op.attrs) is None && op.attrs->Call_callee is Direct
                && op.attrs->Call_convergent,
        ),
{
    broadcast use {group_steady, lemma_end_call_affects};

    lemma_steady_self(p);
    if let Some(intrinsic) = lowered_intrinsic(p.dialect, op.attrs) {
        lemma_steady_affects(p, p.saturating(op, intrinsic, names, n), id);
    }
}

/// Inline assembly marks the module where it is convergent.
proof fn lemma_assembly_affects(
    root: Printer,
    p: Printer,
    op: Operation,
    names: Map<u64, Seq<char>>,
    id: Option<u64>,
)
    requires
        steady(root, p),
    ensures
        affects(root, p.assembly(op, names), id, op.attrs->InlineAsm_convergent),
{
    broadcast use {group_steady, lemma_end_call_affects};

}

/// Inline assembly with any number of results marks the module where it is
/// convergent.
proof fn lemma_inline_asm_affects(
    p: Printer,
    op: Operation,
    names: Map<u64, Seq<char>>,
    id: Option<u64>,
)
    ensures
        affects(p, p.inline_asm(op, names), id, op.attrs->InlineAsm_convergent),
        affects(p, p.inline_asm_multi(op, names), id, op.attrs->InlineAsm_convergent),
{
    broadcast use group_steady;

    lemma_steady_self(p);
    let void = p.text("  call void"@);
    lemma_assembly_affects(p, void, op, names, id);
    if op.results@.len() > 0 {
        let begun = p.definition(names, op.results@[0], "call"@).ty(op.results@[0].ty);
        lemma_assembly_affects(p, begun, op, names, id);
        match crate::calls::struct_type(op.results@) {
            Ok(ty) => {
                let source = names[op.results@[0].id] + "_struct"@;
                let at = p.text("  "@).text(source).text(" = call "@).text(ty);
                lemma_assembly_affects(p, at, op, names, id);
                lemma_extractions_affect(
                    p,
                    at.assembly(op, names),
                    op.results@,
                    names,
                    ty,
                    source,
                    op.results@.len(),
                    id,
                    op.attrs->InlineAsm_convergent,
                );
            },
            Err(_) => {
                reveal(affects);
            },
        }
    }
}

/// The export of an operation affects nothing but what may be recorded of its
/// result, and the mark of convergent calls.
proof fn lemma_operations_affect(
    p: Printer,
    op: Operation,
    names: Map<u64, Seq<char>>,
    labels: Map<u64, Seq<char>>,
    n: nat,
)
    ensures
        affects(
            p,
            p.operation(op, names, labels, n),
            recorded(op),
            is_convergent(p.dialect, op),
        ),
{
    let id = recorded(op);
    if let Some(kind) = LlvmOp::of_type(op.op_type@) {
        if kind.is_terminator() {
            lemma_terminators_affect(p, kind, op, names, labels, n);
        } else if kind.is_memory() {
            lemma_memory_affects(p, kind, op, names, labels, n);
        } else if kind.is_atomic() {
            lemma_atomics_affect(p, kind, op, names, labels, n);
        } else if kind is Call {
            reveal(Printer::operation);
            lemma_calls_affect(p, op, names, n, id);
        } else if kind.is_call() {
            reveal(Printer::operation);
            lemma_inline_asm_affects(p, op, names, id);
        } else {
            lemma_scalars_affect(p, kind, op, names, labels, n);
        }
    } else {
        broadcast use group_steady;

        reveal(Printer::operation);
        lemma_steady_self(p);
        lemma_steady_affects(p, p.operation(op, names, labels, n), id);
    }
}

/// A module is marked to need the attribute group of convergent calls by the
/// export of one, and by nothing else.
pub proof fn law_convergent_calls_are_marked(
    p: Printer,
    op: Operation,
    names: Map<u64, Seq<char>>,
    labels: Map<u64, Seq<char>>,
    n: nat,
)
    requires
        p.operation(op, names, labels, n).error is None,
    ensures
        p.operation(op, names, labels, n).convergent_used == (p.convergent_used || is_convergent(
            p.dialect,
            op,
        )),
{
    lemma_operations_affect(p, op, names, labels, n);
    reveal(affects);
}

/// The type that a pointer is known to be defined with stays known, whatever
/// else is exported, unless that is an allocation, an address computation or a
/// cast which gives the pointer itself.
pub proof fn law_pointer_types_stay_known(
    p: Printer,
    op: Operation,
    names: Map<u64, Seq<char>>,
    labels: Map<u64, Seq<char>>,
    n: nat,
    ptr: Value,
)
    requires
        p.operation(op, names, labels, n).error is None,
        recorded(op) != Some(ptr.id),
    ensures
        p.operation(op, names, labels, n).pointer_value_type(ptr) == p.pointer_value_type(ptr),
{
    lemma_operations_affect(p, op, names, labels, n);
    reveal(affects);
    let q = p.operation(op, names, labels, n);
    if let Some(id) = recorded(op) {
        let (before, behind) = (p.pointer_types.remove(id), q.pointer_types.remove(id));
        assert(before.contains_key(ptr.id) == p.pointer_types.contains_key(ptr.id));
        assert(behind.contains_key(ptr.id) == q.pointer_types.contains_key(ptr.id));
        assert(before.contains_key(ptr.id) ==> before[ptr.id] == p.pointer_types[ptr.id]);
        assert(behind.contains_key(ptr.id) ==> behind[ptr.id] == q.pointer_types[ptr.id]);
    }
}

} // verus!
