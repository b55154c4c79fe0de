//! What an operation must have to be exported, by the name of its type.
use vstd::prelude::*;

use crate::calls::{call_temporaries, lowered_intrinsic};
use crate::config::NvvmIrDialect;
use crate::dispatch::is_type_name;
use crate::ir::{ConstantAttr, GepIndexAttr, Operation, Value};
use crate::llvm_op::{lemma_called, lemma_of_type, LlvmOp};
use crate::memory::indices_exist;
use crate::ops::{casts_fit, exportable, temporaries};
use crate::state::{pointer_type, ModuleExportState};

verus! {

/// Operations on two values need two operands and a result.
pub proof fn law_binary_operations_need(
    state: ModuleExportState,
    op: Operation,
    names: Map<u64, Seq<char>>,
    labels: Map<u64, Seq<char>>,
)
    requires
        op.op_type@ == "AddOp"@ || op.op_type@ == "SubOp"@ || op.op_type@ == "MulOp"@
            || op.op_type@ == "SDivOp"@ || op.op_type@ == "UDivOp"@ || op.op_type@ == "SRemOp"@
            || op.op_type@ == "URemOp"@ || op.op_type@ == "ShlOp"@ || op.op_type@ == "LShrOp"@
            || op.op_type@ == "AShrOp"@ || op.op_type@ == "AndOp"@ || op.op_type@ == "OrOp"@
            || op.op_type@ == "XorOp"@ || op.op_type@ == "FAddOp"@ || op.op_type@ == "FSubOp"@
            || op.op_type@ == "FMulOp"@ || op.op_type@ == "FDivOp"@ || op.op_type@ == "FRemOp"@,
    ensures
        exportable(state, op, names, labels) == (op.operands@.len() >= 2 && op.results@.len() >= 1),
        casts_fit(state, op),
{
    if op.op_type@ == "AddOp"@ {
        lemma_of_type(LlvmOp::Add);
    } else if op.op_type@ == "SubOp"@ {
        lemma_of_type(LlvmOp::Sub);
    } else if op.op_type@ == "MulOp"@ {
        lemma_of_type(LlvmOp::Mul);
    } else if op.op_type@ == "SDivOp"@ {
        lemma_of_type(LlvmOp::SDiv);
    } else if op.op_type@ == "UDivOp"@ {
        lemma_of_type(LlvmOp::UDiv);
    } else if op.op_type@ == "SRemOp"@ {
        lemma_of_type(LlvmOp::SRem);
    } else if op.op_type@ == "URemOp"@ {
        lemma_of_type(LlvmOp::URem);
    } else if op.op_type@ == "ShlOp"@ {
        lemma_of_type(LlvmOp::Shl);
    } else if op.op_type@ == "LShrOp"@ {
        lemma_of_type(LlvmOp::LShr);
    } else if op.op_type@ == "AShrOp"@ {
        lemma_of_type(LlvmOp::AShr);
    } else if op.op_type@ == "AndOp"@ {
        lemma_of_type(LlvmOp::And);
    } else if op.op_type@ == "OrOp"@ {
        lemma_of_type(LlvmOp::Or);
    } else if op.op_type@ == "XorOp"@ {
        lemma_of_type(LlvmOp::Xor);
    } else if op.op_type@ == "FAddOp"@ {
        lemma_of_type(LlvmOp::FAdd);
    } else if op.op_type@ == "FSubOp"@ {
        lemma_of_type(LlvmOp::FSub);
    } else if op.op_type@ == "FMulOp"@ {
        lemma_of_type(LlvmOp::FMul);
    } else if op.op_type@ == "FDivOp"@ {
        lemma_of_type(LlvmOp::FDiv);
    } else if op.op_type@ == "FRemOp"@ {
        lemma_of_type(LlvmOp::FRem);
    }
}

/// Casts need an operand and a result.
pub proof fn law_casts_need(
    state: ModuleExportState,
    op: Operation,
    names: Map<u64, Seq<char>>,
    labels: Map<u64, Seq<char>>,
)
    requires
        op.op_type@ == "BitcastOp"@ || op.op_type@ == "AddrSpaceCastOp"@
            || op.op_type@ == "SExtOp"@ || op.op_type@ == "TruncOp"@
            || op.op_type@ == "PtrToIntOp"@ || op.op_type@ == "IntToPtrOp"@
            || op.op_type@ == "UIToFPOp"@ || op.op_type@ == "SIToFPOp"@
            || op.op_type@ == "FPToUIOp"@ || op.op_type@ == "FPToSIOp"@
            || op.op_type@ == "FPExtOp"@ || op.op_type@ == "FPTruncOp"@,
    ensures
        exportable(state, op, names, labels) == (op.operands@.len() >= 1 && op.results@.len() >= 1),
        casts_fit(state, op),
{
    if op.op_type@ == "BitcastOp"@ {
        lemma_of_type(LlvmOp::Bitcast);
    } else if op.op_type@ == "AddrSpaceCastOp"@ {
        lemma_of_type(LlvmOp::AddrSpaceCast);
    } else if op.op_type@ == "SExtOp"@ {
        lemma_of_type(LlvmOp::SExt);
    } else if op.op_type@ == "TruncOp"@ {
        lemma_of_type(LlvmOp::Trunc);
    } else if op.op_type@ == "PtrToIntOp"@ {
        lemma_of_type(LlvmOp::PtrToInt);
    } else if op.op_type@ == "IntToPtrOp"@ {
        lemma_of_type(LlvmOp::IntToPtr);
    } else if op.op_type@ == "UIToFPOp"@ {
        lemma_of_type(LlvmOp::UIToFP);
    } else if op.op_type@ == "SIToFPOp"@ {
        lemma_of_type(LlvmOp::SIToFP);
    } else if op.op_type@ == "FPToUIOp"@ {
        lemma_of_type(LlvmOp::FPToUI);
    } else if op.op_type@ == "FPToSIOp"@ {
        lemma_of_type(LlvmOp::FPToSI);
    } else if op.op_type@ == "FPExtOp"@ {
        lemma_of_type(LlvmOp::FPExt);
    } else if op.op_type@ == "FPTruncOp"@ {
        lemma_of_type(LlvmOp::FPTrunc);
    }
}

/// Jumps need their successors; a conditional one whose labels are known needs
/// its operand too.
pub proof fn law_terminators_need(
    state: ModuleExportState,
    op: Operation,
    names: Map<u64, Seq<char>>,
    labels: Map<u64, Seq<char>>,
)
    ensures
        ({
            let r = exportable(state, op, names, labels);
            let (operands, results) = (op.operands@.len(), op.results@.len());
            &&& op.op_type@ == "ReturnOp"@ ==> r == (true)
            &&& op.op_type@ == "UnreachableOp"@ ==> r == (true)
            &&& op.op_type@ == "BrOp"@ ==> r == (op.successors@.len() >= 1)
            &&& op.op_type@ == "CondBrOp"@ ==> r == (op.successors@.len() >= 2
                && (labels.contains_key(op.successors@[0])
                && labels.contains_key(op.successors@[1]) ==> operands >= 1))
        }),
{
    lemma_of_type(LlvmOp::Return);
    lemma_of_type(LlvmOp::Unreachable);
    lemma_of_type(LlvmOp::Br);
    lemma_of_type(LlvmOp::CondBr);
}

/// Operations on memory need their operands, results and attributes.
pub proof fn law_memory_operations_need(
    state: ModuleExportState,
    op: Operation,
    names: Map<u64, Seq<char>>,
    labels: Map<u64, Seq<char>>,
)
    ensures
        ({
            let r = exportable(state, op, names, labels);
            let (operands, results) = (op.operands@.len(), op.results@.len());
            &&& op.op_type@ == "LoadOp"@ ==> r == (operands >= 1 && results >= 1)
            &&& op.op_type@ == "StoreOp"@ ==> r == (operands >= 2)
            &&& op.op_type@ == "AllocaOp"@ ==> r == (results >= 1 && op.attrs is Alloca)
        }),
{
    lemma_of_type(LlvmOp::Load);
    lemma_of_type(LlvmOp::Store);
    lemma_of_type(LlvmOp::Alloca);
}

/// Atomic operations need their operands, results and attributes.
pub proof fn law_atomic_operations_need(
    state: ModuleExportState,
    op: Operation,
    names: Map<u64, Seq<char>>,
    labels: Map<u64, Seq<char>>,
)
    ensures
        ({
            let r = exportable(state, op, names, labels);
            let (operands, results) = (op.operands@.len(), op.results@.len());
            &&& op.op_type@ == "AtomicLoadOp"@ ==> r == (operands >= 1 && results >= 1
                && op.attrs is Atomic)
            &&& op.op_type@ == "AtomicStoreOp"@ ==> r == (operands >= 2 && op.attrs is Atomic)
            &&& op.op_type@ == "AtomicRmwOp"@ ==> r == (operands >= 2 && results >= 1
                && op.attrs is AtomicRmw)
            &&& op.op_type@ == "AtomicCmpxchgOp"@ ==> r == (operands >= 3 && results >= 1
                && op.attrs is AtomicCmpxchg)
            &&& op.op_type@ == "FenceOp"@ ==> r == (op.attrs is Atomic)
        }),
{
    lemma_of_type(LlvmOp::AtomicLoad);
    lemma_of_type(LlvmOp::AtomicStore);
    lemma_of_type(LlvmOp::AtomicRmw);
    lemma_of_type(LlvmOp::AtomicCmpxchg);
    lemma_of_type(LlvmOp::Fence);
}

/// Comparisons need their predicate, and all of these their operands and results.
/// An extraction or insertion whose types can be spelled needs its indices.
pub proof fn law_scalar_operations_need(
    state: ModuleExportState,
    op: Operation,
    names: Map<u64, Seq<char>>,
    labels: Map<u64, Seq<char>>,
)
    ensures
        ({
            let r = exportable(state, op, names, labels);
            let (operands, results) = (op.operands@.len(), op.results@.len());
            &&& op.op_type@ == "FNegOp"@ ==> r == (operands >= 1 && results >= 1)
            &&& op.op_type@ == "ICmpOp"@ ==> r == (operands >= 2 && results >= 1
                && op.attrs is ICmp)
            &&& op.op_type@ == "FCmpOp"@ ==> r == (operands >= 2 && results >= 1
                && op.attrs is FCmp)
            &&& op.op_type@ == "SelectOp"@ ==> r == (operands >= 3 && results >= 1)
            &&& op.op_type@ == "ZExtOp"@ ==> r == (operands >= 1 && results >= 1)
            &&& op.op_type@ == "ExtractValueOp"@ ==> r == (operands >= 1 && results >= 1
                && (op.operands@[0].ty.spelled() is Ok ==> op.attrs is Indices))
            &&& op.op_type@ == "InsertValueOp"@ ==> r == (operands >= 2 && results >= 1
                && (op.operands@[0].ty.spelled() is Ok
                && op.operands@[1].ty.spelled() is Ok ==> op.attrs is Indices))
        }),
{
    lemma_of_type(LlvmOp::FNeg);
    lemma_of_type(LlvmOp::ICmp);
    lemma_of_type(LlvmOp::FCmp);
    lemma_of_type(LlvmOp::Select);
    lemma_of_type(LlvmOp::ZExt);
    lemma_of_type(LlvmOp::ExtractValue);
    lemma_of_type(LlvmOp::InsertValue);
}

/// Assembly needs its attributes.
pub proof fn law_assembly_needs(
    state: ModuleExportState,
    op: Operation,
    names: Map<u64, Seq<char>>,
    labels: Map<u64, Seq<char>>,
)
    ensures
        ({
            let r = exportable(state, op, names, labels);
            let (operands, results) = (op.operands@.len(), op.results@.len());
            &&& op.op_type@ == "InlineAsmOp"@ ==> r == (op.attrs is InlineAsm)
            &&& op.op_type@ == "InlineAsmMultiOp"@ ==> r == (op.attrs is InlineAsm)
        }),
{
    lemma_of_type(LlvmOp::InlineAsm);
    lemma_of_type(LlvmOp::InlineAsmMulti);
}

/// Virtual operations need the result that they name; a constant its value, with at
/// least one bit if it is an integer; and an address that its result is named by
/// a symbol.
pub proof fn law_virtual_operations_need(
    state: ModuleExportState,
    op: Operation,
    names: Map<u64, Seq<char>>,
    labels: Map<u64, Seq<char>>,
)
    ensures
        ({
            let r = exportable(state, op, names, labels);
            let (operands, results) = (op.operands@.len(), op.results@.len());
            &&& op.op_type@ == "UndefOp"@ ==> r == (results >= 1)
            &&& op.op_type@ == "ConstantOp"@ ==> r == (results >= 1 && op.attrs is Constant
                && !(op.attrs->Constant_0 matches ConstantAttr::Integer { width: 0, .. }))
            &&& op.op_type@ == "AddressOfOp"@ ==> r == (results >= 1
                && names.contains_key(op.results@[0].id) && names[op.results@[0].id].len() >= 1
                && names[op.results@[0].id][0] == '@')
        }),
{
    lemma_of_type(LlvmOp::Undef);
    lemma_of_type(LlvmOp::Constant);
    lemma_of_type(LlvmOp::AddressOf);
    reveal_strlit("@");
    let name = names[op.results@[0].id];
    if name.len() >= 1 {
        assert(name.take(1)[0] == name[0]);
        if name[0] == '@' {
            assert(name.take(1) =~= "@"@);
        }
    }
}

/// An address computation needs an operand, a result, its attributes and, where
/// the types in front of the indices can be spelled, the operands that they refer
/// to, up to the first whose type cannot be spelled.
pub proof fn law_address_computations_need(
    state: ModuleExportState,
    op: Operation,
    names: Map<u64, Seq<char>>,
    labels: Map<u64, Seq<char>>,
)
    requires
        op.op_type@ == "GetElementPtrOp"@,
    ensures
        ({
            let ptr = op.operands@[0];
            let known = state.nvvm_ir_dialect != Some(NvvmIrDialect::TypedPointers)
                || state.typed_pointer_value_types@.contains_key(ptr.id) || ptr.ty.spelled() is Ok;
            let reached = op.attrs->GetElementPtr_source_type.spelled() is Ok && known;
            exportable(state, op, names, labels) == (op.operands@.len() >= 1 && op.results@.len()
                >= 1 && op.attrs is GetElementPtr && (reached ==> indices_exist(
                op.attrs->GetElementPtr_indices@,
                op.operands@,
            )))
        }),
{
    lemma_of_type(LlvmOp::GetElementPtr);
    let p = state.printer(Seq::empty(), None);
    assert(p.pointer_types.contains_key(op.operands@[0].id)
        == state.typed_pointer_value_types@.contains_key(op.operands@[0].id));
}

/// Indices fail to exist exactly if one of them refers to an operand that there
/// is not, and those in front of it are constants or operands whose types can be
/// spelled.
pub proof fn law_indices_exist(indices: Seq<GepIndexAttr>, operands: Seq<Value>)
    ensures
        !indices_exist(indices, operands) <==> exists|i: int| #[trigger]
            fails_at(indices, operands, i),
        (forall|i: int|
            0 <= i < indices.len() ==> (#[trigger] indices[i] matches GepIndexAttr::OperandIdx(k)
                ==> k < operands.len())) ==> indices_exist(indices, operands),
{
    if !indices_exist(indices, operands) {
        let i = choose|i: int|
            0 <= i < indices.len() && (forall|j: int|
                0 <= j < i ==> crate::memory::index_spelled(#[trigger] indices[j], operands))
                && !crate::memory::index_exists(#[trigger] indices[i], operands);
        assert forall|j: int| 0 <= j < i implies (
        #[trigger] indices[j] matches GepIndexAttr::OperandIdx(k) ==> k < operands.len()
            && operands[k as int].ty.spelled() is Ok) by {
            assert(crate::memory::index_spelled(indices[j], operands));
        }
        assert(fails_at(indices, operands, i));
    }
    if exists|i: int| #[trigger] fails_at(indices, operands, i) {
        let i = choose|i: int| #[trigger] fails_at(indices, operands, i);
        assert forall|j: int| 0 <= j < i implies crate::memory::index_spelled(
            #[trigger] indices[j],
            operands,
        ) by {}
        assert(!crate::memory::index_exists(indices[i], operands));
    }
}

/// Whether index `i` is the one at which an export would find no operand.
pub open spec fn fails_at(indices: Seq<GepIndexAttr>, operands: Seq<Value>, i: int) -> bool {
    &&& 0 <= i < indices.len()
    &&& indices[i] matches GepIndexAttr::OperandIdx(k) && k >= operands.len()
    &&& forall|j: int|
        0 <= j < i ==> (#[trigger] indices[j] matches GepIndexAttr::OperandIdx(k) ==> k
            < operands.len() && operands[k as int].ty.spelled() is Ok)
}

/// A call needs its attributes and, unless it is lowered or gives nothing, a named
/// result.
pub proof fn law_calls_need(
    state: ModuleExportState,
    op: Operation,
    names: Map<u64, Seq<char>>,
    labels: Map<u64, Seq<char>>,
)
    requires
        op.op_type@ == "CallOp"@,
    ensures
        exportable(state, op, names, labels) == (op.attrs is Call && (lowered_intrinsic(
            state.nvvm_ir_dialect,
            op.attrs,
        ) is Some || op.attrs->Call_result_type.kind is Void || (op.results@.len() >= 1
            && names.contains_key(op.results@[0].id)))),
{
    lemma_of_type(LlvmOp::Call);
}

/// An operation of an unknown type can always be exported.
pub proof fn law_unknown_operations_need_nothing(
    state: ModuleExportState,
    op: Operation,
    names: Map<u64, Seq<char>>,
    labels: Map<u64, Seq<char>>,
)
    requires
        !is_type_name(op.op_type@),
    ensures
        exportable(state, op, names, labels),
        casts_fit(state, op),
        temporaries(state.nvvm_ir_dialect, op, names) == 0,
{
    lemma_called(op.op_type@);
}

/// As long as there is a number for one more cast, every cast that an operation
/// makes has one.
pub proof fn law_casts_fit(state: ModuleExportState, op: Operation)
    requires
        state.next_pointer_cast_id < usize::MAX,
    ensures
        casts_fit(state, op),
{
}

/// A pointer can be used unless it has to be cast and there is no number for the
/// cast: pointers are typed, and it is defined with another type than it is used
/// with.
pub proof fn law_last_cast(
    state: ModuleExportState,
    ptr: Value,
    pointee: crate::ir::Type,
    space: u32,
    target: Seq<char>,
)
    ensures
        ({
            let p = state.printer(Seq::empty(), None);
            let defined = p.pointer_value_type(ptr);
            let used = pointer_type(pointee, space);
            let typed = state.nvvm_ir_dialect == Some(NvvmIrDialect::TypedPointers);
            &&& state.can_use(ptr, pointee, space) == !(typed && defined is Ok && used is Ok
                && defined != used && state.next_pointer_cast_id == usize::MAX)
            &&& state.can_coerce(ptr, target) == !(typed && ptr.ty.kind is Pointer
                && defined is Ok && defined != Ok::<Seq<char>, Seq<char>>(target)
                && state.next_pointer_cast_id == usize::MAX)
        }),
{
}

/// Which pointer an operation may have to cast, and from which it then needs a
/// number.
pub proof fn law_which_pointers_are_cast(state: ModuleExportState, op: Operation)
    ensures
        ({
            let r = casts_fit(state, op);
            let (a, b) = (op.operands@[0], op.operands@[1]);
            let space = a.ty.address_space();
            &&& op.op_type@ == "LoadOp"@ ==> r == state.can_use(a, op.results@[0].ty, space)
            &&& op.op_type@ == "AtomicLoadOp"@ ==> r == state.can_use(a, op.results@[0].ty, space)
            &&& op.op_type@ == "StoreOp"@ ==> r == state.can_use(b, a.ty, b.ty.address_space())
            &&& op.op_type@ == "AtomicStoreOp"@ ==> r == state.can_use(
                b,
                a.ty,
                b.ty.address_space(),
            )
            &&& op.op_type@ == "GetElementPtrOp"@ ==> r == state.can_use(
                a,
                op.attrs->GetElementPtr_source_type,
                space,
            )
            &&& op.op_type@ == "AtomicRmwOp"@ ==> r == state.can_use(a, b.ty, space)
            &&& op.op_type@ == "AtomicCmpxchgOp"@ ==> r == state.can_use(a, b.ty, space)
            &&& op.op_type@ == "InsertValueOp"@ ==> r == (b.ty.spelled() matches Ok(slot)
                ==> state.can_coerce(b, slot))
        }),
{
    lemma_of_type(LlvmOp::Load);
    lemma_of_type(LlvmOp::AtomicLoad);
    lemma_of_type(LlvmOp::Store);
    lemma_of_type(LlvmOp::AtomicStore);
    lemma_of_type(LlvmOp::GetElementPtr);
    lemma_of_type(LlvmOp::AtomicRmw);
    lemma_of_type(LlvmOp::AtomicCmpxchg);
    lemma_of_type(LlvmOp::InsertValue);
}

/// No other operation casts a pointer.
pub proof fn law_other_operations_cast_nothing(state: ModuleExportState, op: Operation)
    requires
        op.op_type@ != "LoadOp"@ && op.op_type@ != "AtomicLoadOp"@,
        op.op_type@ != "StoreOp"@ && op.op_type@ != "AtomicStoreOp"@,
        op.op_type@ != "GetElementPtrOp"@ && op.op_type@ != "InsertValueOp"@,
        op.op_type@ != "AtomicRmwOp"@ && op.op_type@ != "AtomicCmpxchgOp"@,
    ensures
        casts_fit(state, op),
{
    lemma_called(op.op_type@);
}

/// Only calls use temporaries other than their results.
pub proof fn law_temporaries(
    dialect: Option<NvvmIrDialect>,
    op: Operation,
    names: Map<u64, Seq<char>>,
)
    ensures
        op.op_type@ == "CallOp"@ ==> temporaries(dialect, op, names) == call_temporaries(
            dialect,
            op,
            names,
        ),
        op.op_type@ != "CallOp"@ ==> temporaries(dialect, op, names) == 0,
{
    lemma_of_type(LlvmOp::Call);
    lemma_called(op.op_type@);
}

} // verus!
