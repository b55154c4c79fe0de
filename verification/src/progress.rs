//! How printing moves on: what was printed stays, and an error stops it.
use vstd::prelude::*;

use crate::ir::{GepIndexAttr, Type, Value};
use crate::saturating::Instruction;
use crate::state::{pointer_type, typed_pointers, value_text, Printer};

verus! {

/// Whether a printer `q` comes behind `p`: what was printed stays, the dialect
/// is the same, the module still needs the attribute group that it needed, the
/// numbers of pointer casts do not run backwards, and they stand still where
/// pointers are opaque. Behind an error nothing changes.
#[verifier::opaque]
pub open spec fn extends(p: Printer, q: Printer) -> bool {
    &&& p.out.is_prefix_of(q.out)
    &&& q.dialect == p.dialect
    &&& p.convergent_used ==> q.convergent_used
    &&& p.next_cast <= q.next_cast
    &&& !typed_pointers(p.dialect) ==> q.next_cast == p.next_cast
    &&& p.error is Some ==> q == p
}

/// A printer comes behind itself.
pub proof fn lemma_extends_self(p: Printer)
    ensures
        extends(p, p),
{
    reveal(extends);
    assert(p.out =~= p.out.subrange(0, p.out.len() as int));
}

/// What comes behind a printer that comes behind another comes behind that.
pub proof fn lemma_extends_chain(p: Printer, q: Printer, r: Printer)
    requires
        extends(p, q),
        extends(q, r),
    ensures
        extends(p, r),
{
    reveal(extends);
    assert forall|i: int| 0 <= i < p.out.len() implies p.out[i] == r.out[i] by {
        assert(p.out[i] == q.out.subrange(0, p.out.len() as int)[i]);
        assert(q.out[i] == r.out.subrange(0, q.out.len() as int)[i]);
    }
    assert(p.out =~= r.out.subrange(0, p.out.len() as int));
}

/// Printing a text moves on.
pub broadcast proof fn lemma_text(root: Printer, p: Printer, s: Seq<char>)
    requires
        #[trigger] extends(root, p),
    ensures
        extends(root, #[trigger] p.text(s)),
{
    assert(extends(p, p.text(s))) by {
        reveal(extends);
        assert(p.out =~= p.text(s).out.subrange(0, p.out.len() as int));
    }
    lemma_extends_chain(root, p, p.text(s));
}

/// So does an error.
pub broadcast proof fn lemma_fail(root: Printer, p: Printer, message: Seq<char>)
    requires
        #[trigger] extends(root, p),
    ensures
        extends(root, #[trigger] p.fail(message)),
{
    assert(extends(p, p.fail(message))) by {
        reveal(extends);
        assert(p.out =~= p.fail(message).out.subrange(0, p.out.len() as int));
    }
    lemma_extends_chain(root, p, p.fail(message));
}

/// So does printing what may have no spelling.
pub broadcast proof fn lemma_spelling(root: Printer, p: Printer, r: Result<Seq<char>, Seq<char>>)
    requires
        #[trigger] extends(root, p),
    ensures
        extends(root, #[trigger] p.spelling(r)),
{
    broadcast use {lemma_text, lemma_fail};

}

/// So does printing a type.
pub broadcast proof fn lemma_ty(root: Printer, p: Printer, ty: Type)
    requires
        #[trigger] extends(root, p),
    ensures
        extends(root, #[trigger] p.ty(ty)),
{
    broadcast use lemma_spelling;

}

/// So does printing a value.
pub broadcast proof fn lemma_value(
    root: Printer,
    p: Printer,
    names: Map<u64, Seq<char>>,
    value: Value,
)
    requires
        #[trigger] extends(root, p),
    ensures
        extends(root, #[trigger] p.value(names, value)),
{
    broadcast use lemma_text;

}

/// So does printing a value behind its type.
pub broadcast proof fn lemma_typed_value(
    root: Printer,
    p: Printer,
    names: Map<u64, Seq<char>>,
    value: Value,
)
    requires
        #[trigger] extends(root, p),
    ensures
        extends(root, #[trigger] p.typed_value(names, value)),
{
    broadcast use {lemma_text, lemma_ty, lemma_value};

}

/// So does printing what may have no spelling behind a separator.
pub broadcast proof fn lemma_spelling_behind(
    root: Printer,
    p: Printer,
    separator: Seq<char>,
    r: Result<Seq<char>, Seq<char>>,
)
    requires
        #[trigger] extends(root, p),
    ensures
        extends(root, #[trigger] p.spelling_behind(separator, r)),
{
    broadcast use {lemma_text, lemma_fail};

}

/// So does the beginning of a definition.
pub broadcast proof fn lemma_definition(
    root: Printer,
    p: Printer,
    names: Map<u64, Seq<char>>,
    result: Value,
    head: Seq<char>,
)
    requires
        #[trigger] extends(root, p),
    ensures
        extends(root, #[trigger] p.definition(names, result, head)),
{
    broadcast use lemma_text;

}

/// So does recording a pointer type.
pub broadcast proof fn lemma_record_pointer(
    root: Printer,
    p: Printer,
    id: u64,
    r: Result<Seq<char>, Seq<char>>,
)
    requires
        #[trigger] extends(root, p),
    ensures
        extends(root, #[trigger] p.record_pointer(id, r)),
{
    assert(extends(p, p.record_pointer(id, r))) by {
        reveal(extends);
        assert(p.out =~= p.out.subrange(0, p.out.len() as int));
    }
    lemma_extends_chain(root, p, p.record_pointer(id, r));
}

/// So does a pointer cast, with typed pointers.
proof fn lemma_pointer_cast(
    root: Printer,
    p: Printer,
    cast_op: Seq<char>,
    from: Seq<char>,
    name: Seq<char>,
    to: Seq<char>,
)
    requires
        extends(root, p),
        typed_pointers(p.dialect),
    ensures
        extends(root, p.pointer_cast(cast_op, from, name, to)),
{
    broadcast use lemma_text;

    let numbered = if p.error is Some {
        p
    } else {
        Printer { next_cast: p.next_cast + 1, ..p }
    };
    assert(extends(p, numbered)) by {
        reveal(extends);
        assert(p.out =~= p.out.subrange(0, p.out.len() as int));
    }
    lemma_extends_chain(root, p, numbered);
}

/// So does making a pointer operand usable.
pub broadcast proof fn lemma_pointer_operand(
    root: Printer,
    p: Printer,
    names: Map<u64, Seq<char>>,
    ptr: Value,
    pointee: Type,
    addrspace: u32,
)
    requires
        #[trigger] extends(root, p),
    ensures
        extends(root, #[trigger] p.pointer_operand(names, ptr, pointee, addrspace)),
{
    broadcast use lemma_fail;

    if typed_pointers(p.dialect) {
        match (pointer_type(pointee, addrspace), p.pointer_value_type(ptr)) {
            (Ok(desired), Ok(current)) => {
                let cast_op = if ptr.ty.address_space() == addrspace {
                    "bitcast"@
                } else {
                    "addrspacecast"@
                };
                lemma_pointer_cast(root, p, cast_op, current, value_text(names, ptr), desired);
            },
            _ => {},
        }
    }
}

/// So does coercing a pointer.
pub broadcast proof fn lemma_coerce_pointer(
    root: Printer,
    p: Printer,
    names: Map<u64, Seq<char>>,
    value: Value,
    target: Seq<char>,
)
    requires
        #[trigger] extends(root, p),
    ensures
        extends(root, #[trigger] p.coerce_pointer(names, value, target)),
{
    broadcast use lemma_fail;

    if typed_pointers(p.dialect) && value.ty.is_pointer() {
        if let Ok(current) = p.pointer_value_type(value) {
            lemma_pointer_cast(root, p, "bitcast"@, current, value_text(names, value), target);
        }
    }
}

/// So does a list of values.
pub broadcast proof fn lemma_typed_values(
    root: Printer,
    p: Printer,
    names: Map<u64, Seq<char>>,
    values: Seq<Value>,
    k: nat,
)
    requires
        #[trigger] extends(root, p),
    ensures
        extends(root, #[trigger] p.typed_values(names, values, k)),
    decreases k,
{
    broadcast use {lemma_text, lemma_typed_value};

    if k > 0 {
        lemma_typed_values(root, p, names, values, (k - 1) as nat);
    }
}

/// So does a list of numbers.
pub broadcast proof fn lemma_numbers(root: Printer, p: Printer, list: Seq<u32>, k: nat)
    requires
        #[trigger] extends(root, p),
    ensures
        extends(root, #[trigger] p.numbers(list, k)),
    decreases k,
{
    broadcast use lemma_text;

    if k > 0 {
        lemma_numbers(root, p, list, (k - 1) as nat);
    }
}

/// So do the indices of an address computation.
pub broadcast proof fn lemma_gep_indices(
    root: Printer,
    p: Printer,
    indices: Seq<GepIndexAttr>,
    operands: Seq<Value>,
    names: Map<u64, Seq<char>>,
    k: nat,
)
    requires
        #[trigger] extends(root, p),
    ensures
        extends(root, #[trigger] p.gep_indices(indices, operands, names, k)),
    decreases k,
{
    broadcast use {lemma_text, lemma_typed_value};

    if k > 0 {
        lemma_gep_indices(root, p, indices, operands, names, (k - 1) as nat);
    }
}

/// So do pointer operands behind their types.
pub broadcast proof fn lemma_typed_pointer(
    root: Printer,
    p: Printer,
    pointee: Type,
    addrspace: u32,
    name: Seq<char>,
)
    requires
        #[trigger] extends(root, p),
    ensures
        extends(root, #[trigger] p.typed_pointer(pointee, addrspace, name)),
{
    broadcast use {lemma_text, lemma_spelling};

}

/// So do pointer operands behind a comma.
pub broadcast proof fn lemma_next_typed_pointer(
    root: Printer,
    p: Printer,
    pointee: Type,
    addrspace: u32,
    name: Seq<char>,
)
    requires
        #[trigger] extends(root, p),
    ensures
        extends(root, #[trigger] p.next_typed_pointer(pointee, addrspace, name)),
{
    broadcast use {lemma_text, lemma_spelling_behind};

}

/// So does the end of an atomic instruction.
pub broadcast proof fn lemma_atomic_tail(
    root: Printer,
    p: Printer,
    syncscope: Seq<char>,
    ordering: Seq<char>,
)
    requires
        #[trigger] extends(root, p),
    ensures
        extends(root, #[trigger] p.atomic_tail(syncscope, ordering)),
{
    broadcast use lemma_text;

}

/// So does the end of a call.
pub broadcast proof fn lemma_end_call(root: Printer, p: Printer, convergent: bool)
    requires
        #[trigger] extends(root, p),
    ensures
        extends(root, #[trigger] p.end_call(convergent)),
{
    assert(extends(p, p.end_call(convergent))) by {
        reveal(extends);
        assert(p.out =~= p.end_call(convergent).out.subrange(0, p.out.len() as int));
    }
    lemma_extends_chain(root, p, p.end_call(convergent));
}

/// So does inline assembly.
pub broadcast proof fn lemma_assembly(
    root: Printer,
    p: Printer,
    op: crate::ir::Operation,
    names: Map<u64, Seq<char>>,
)
    requires
        #[trigger] extends(root, p),
    ensures
        extends(root, #[trigger] p.assembly(op, names)),
{
    broadcast use {lemma_text, lemma_typed_values, lemma_end_call};

}

/// So do the extractions from a structure.
pub broadcast proof fn lemma_extractions(
    root: Printer,
    p: Printer,
    results: Seq<Value>,
    names: Map<u64, Seq<char>>,
    struct_type: Seq<char>,
    source: Seq<char>,
    k: nat,
)
    requires
        #[trigger] extends(root, p),
    ensures
        extends(root, #[trigger] p.extractions(results, names, struct_type, source, k)),
    decreases k,
{
    broadcast use {lemma_text, lemma_definition};

    if k > 0 {
        lemma_extractions(root, p, results, names, struct_type, source, (k - 1) as nat);
    }
}

/// So do the instructions of a lowered intrinsic.
pub broadcast proof fn lemma_instructions(
    root: Printer,
    p: Printer,
    list: Seq<Instruction>,
    k: nat,
)
    requires
        #[trigger] extends(root, p),
    ensures
        extends(root, #[trigger] p.instructions(list, k)),
    decreases k,
{
    broadcast use lemma_text;

    if k > 0 {
        lemma_instructions(root, p, list, (k - 1) as nat);
    }
}

/// All steps of printing move on.
pub broadcast group group_progress {
    lemma_text,
    lemma_fail,
    lemma_spelling,
    lemma_ty,
    lemma_value,
    lemma_typed_value,
    lemma_spelling_behind,
    lemma_definition,
    lemma_record_pointer,
    lemma_pointer_operand,
    lemma_coerce_pointer,
    lemma_typed_values,
    lemma_numbers,
    lemma_gep_indices,
    lemma_typed_pointer,
    lemma_next_typed_pointer,
    lemma_atomic_tail,
    lemma_end_call,
    lemma_assembly,
    lemma_extractions,
    lemma_instructions,
}

} // verus!
