//! What holds of pointers that are used with a type.
use vstd::prelude::*;

use crate::ir::{Operation, Type, Value};
use crate::memory::gep_pointee;
use crate::state::{cast_name, pointer_type, typed_pointers, value_text, Printer};

verus! {

/// With typed pointers, the pointer that a memory operation goes through is used
/// with the type that it is defined with, or behind one cast from that type to
/// the type that it is used with, under the name of that cast.
pub proof fn law_pointer_operands_are_typed(
    p: Printer,
    names: Map<u64, Seq<char>>,
    ptr: Value,
    pointee: Type,
    addrspace: u32,
)
    requires
        p.error is None,
        typed_pointers(p.dialect),
        p.pointer_operand(names, ptr, pointee, addrspace).error is None,
    ensures
        ({
            let q = p.pointer_operand(names, ptr, pointee, addrspace);
            let name = p.pointer_operand_name(names, ptr, pointee, addrspace);
            let (defined, used) = (p.pointer_value_type(ptr), pointer_type(pointee, addrspace));
            let cast_op = if ptr.ty.address_space() == addrspace {
                "bitcast"@
            } else {
                "addrspacecast"@
            };
            &&& defined is Ok && used is Ok
            &&& if defined == used {
                q == p && name == value_text(names, ptr)
            } else {
                &&& name == cast_name(p.next_cast)
                &&& q == (Printer {
                    next_cast: p.next_cast + 1,
                    out: p.out + ("  "@ + name + " = "@ + cast_op + " "@ + defined->Ok_0 + " "@
                        + value_text(names, ptr) + " to "@ + used->Ok_0 + "\n"@),
                    ..p
                })
            }
        }),
{
    let q = p.pointer_operand(names, ptr, pointee, addrspace);
    let name = p.pointer_operand_name(names, ptr, pointee, addrspace);
    let (defined, used) = (p.pointer_value_type(ptr), pointer_type(pointee, addrspace));
    let cast_op = if ptr.ty.address_space() == addrspace {
        "bitcast"@
    } else {
        "addrspacecast"@
    };
    if defined != used {
        assert(q.out =~= p.out + ("  "@ + name + " = "@ + cast_op + " "@ + defined->Ok_0 + " "@
            + value_text(names, ptr) + " to "@ + used->Ok_0 + "\n"@));
    }
}

/// The result of an address computation needs no cast where it is used as a
/// pointer to what the computation leads to.
pub proof fn law_gep_results_need_no_cast(
    p: Printer,
    op: Operation,
    names: Map<u64, Seq<char>>,
    ptr: Value,
    pointee: Type,
)
    requires
        p.gep(op, names).error is None,
        ptr.id == op.results@[0].id,
        pointee.spelled() == gep_pointee(
            op.attrs->GetElementPtr_source_type,
            op.attrs->GetElementPtr_indexed_type,
        ).spelled(),
    ensures
        ({
            let q = p.gep(op, names);
            let space = op.operands@[0].ty.address_space();
            &&& q.pointer_operand(names, ptr, pointee, space) == q
            &&& q.pointer_operand_name(names, ptr, pointee, space) == value_text(names, ptr)
        }),
{
}

/// The result of an allocation needs no cast where it is used as a pointer to
/// what was allocated.
pub proof fn law_alloca_results_need_no_cast(
    p: Printer,
    op: Operation,
    names: Map<u64, Seq<char>>,
    ptr: Value,
    pointee: Type,
)
    requires
        p.alloca(op, names).error is None,
        ptr.id == op.results@[0].id,
        pointee.spelled() == op.attrs->Alloca_element_type.spelled(),
    ensures
        ({
            let q = p.alloca(op, names);
            &&& q.pointer_operand(names, ptr, pointee, 0) == q
            &&& q.pointer_operand_name(names, ptr, pointee, 0) == value_text(names, ptr)
        }),
{
}

/// With typed pointers, the result of a cast to a pointer type is known to be
/// defined with the erased type, and is inserted into aggregates as it is.
pub proof fn law_cast_results_are_erased(
    p: Printer,
    op_name: Seq<char>,
    op: Operation,
    names: Map<u64, Seq<char>>,
)
    requires
        typed_pointers(p.dialect),
        op.results@[0].ty.is_pointer(),
        p.cast(op_name, op, names).error is None,
    ensures
        ({
            let q = p.cast(op_name, op, names);
            let result = op.results@[0];
            &&& q.pointer_value_type(result) == result.ty.spelled()
            &&& q.coerce_pointer(names, result, result.ty.spelled()->Ok_0) == q
        }),
{
}

} // verus!
