//! Which operation is printed how: by the name of its type alone.
use vstd::prelude::*;

use crate::ir::{FCmpPredicateAttr, ICmpPredicateAttr, Operation};
use crate::llvm_op::{lemma_called, lemma_of_type, LlvmOp};
use crate::state::Printer;

verus! {

/// Whether a name is that of the type of an operation that has a textual form or
/// a name that stands for it.
pub open spec fn is_type_name(name: Seq<char>) -> bool {
    ||| name == "ReturnOp"@
    ||| name == "UnreachableOp"@
    ||| name == "BrOp"@
    ||| name == "CondBrOp"@
    ||| name == "LoadOp"@
    ||| name == "StoreOp"@
    ||| name == "AllocaOp"@
    ||| name == "GetElementPtrOp"@
    ||| name == "AtomicLoadOp"@
    ||| name == "AtomicStoreOp"@
    ||| name == "AtomicRmwOp"@
    ||| name == "AtomicCmpxchgOp"@
    ||| name == "FenceOp"@
    ||| name == "AddOp"@
    ||| name == "SubOp"@
    ||| name == "MulOp"@
    ||| name == "SDivOp"@
    ||| name == "UDivOp"@
    ||| name == "SRemOp"@
    ||| name == "URemOp"@
    ||| name == "ShlOp"@
    ||| name == "LShrOp"@
    ||| name == "AShrOp"@
    ||| name == "AndOp"@
    ||| name == "OrOp"@
    ||| name == "XorOp"@
    ||| name == "FAddOp"@
    ||| name == "FSubOp"@
    ||| name == "FMulOp"@
    ||| name == "FDivOp"@
    ||| name == "FRemOp"@
    ||| name == "FNegOp"@
    ||| name == "ICmpOp"@
    ||| name == "FCmpOp"@
    ||| name == "SelectOp"@
    ||| name == "CallOp"@
    ||| name == "InlineAsmOp"@
    ||| name == "InlineAsmMultiOp"@
    ||| name == "BitcastOp"@
    ||| name == "AddrSpaceCastOp"@
    ||| name == "ZExtOp"@
    ||| name == "SExtOp"@
    ||| name == "TruncOp"@
    ||| name == "PtrToIntOp"@
    ||| name == "IntToPtrOp"@
    ||| name == "UIToFPOp"@
    ||| name == "SIToFPOp"@
    ||| name == "FPToUIOp"@
    ||| name == "FPToSIOp"@
    ||| name == "FPExtOp"@
    ||| name == "FPTruncOp"@
    ||| name == "ExtractValueOp"@
    ||| name == "InsertValueOp"@
    ||| name == "UndefOp"@
    ||| name == "ConstantOp"@
    ||| name == "AddressOfOp"@
}

/// The operation of a kind is the one whose type has the name of that kind.
proof fn lemma_dispatch(
    p: Printer,
    op: Operation,
    names: Map<u64, Seq<char>>,
    labels: Map<u64, Seq<char>>,
    n: nat,
    kind: LlvmOp,
)
    requires
        op.op_type@ == kind.called(),
    ensures
        kind.binop() matches Some(mnemonic) ==> p.operation(op, names, labels, n) == p.binop(
            mnemonic,
            op,
            names,
        ),
        kind.binop() is None ==> (kind.cast() matches Some(mnemonic) ==> p.operation(
            op,
            names,
            labels,
            n,
        ) == p.cast(mnemonic, op, names)),
{
    reveal(Printer::operation);
    lemma_of_type(kind);
}

/// Arithmetic and bitwise operations are printed with their mnemonics.
pub proof fn law_binary_operations(
    p: Printer,
    op: Operation,
    names: Map<u64, Seq<char>>,
    labels: Map<u64, Seq<char>>,
    n: nat,
)
    ensures
        ({
            let q = p.operation(op, names, labels, n);
            &&& op.op_type@ == "AddOp"@ ==> q == p.binop("add"@, op, names)
            &&& op.op_type@ == "SubOp"@ ==> q == p.binop("sub"@, op, names)
            &&& op.op_type@ == "MulOp"@ ==> q == p.binop("mul"@, op, names)
            &&& op.op_type@ == "SDivOp"@ ==> q == p.binop("sdiv"@, op, names)
            &&& op.op_type@ == "UDivOp"@ ==> q == p.binop("udiv"@, op, names)
            &&& op.op_type@ == "SRemOp"@ ==> q == p.binop("srem"@, op, names)
            &&& op.op_type@ == "URemOp"@ ==> q == p.binop("urem"@, op, names)
            &&& op.op_type@ == "ShlOp"@ ==> q == p.binop("shl"@, op, names)
            &&& op.op_type@ == "LShrOp"@ ==> q == p.binop("lshr"@, op, names)
            &&& op.op_type@ == "AShrOp"@ ==> q == p.binop("ashr"@, op, names)
            &&& op.op_type@ == "AndOp"@ ==> q == p.binop("and"@, op, names)
            &&& op.op_type@ == "OrOp"@ ==> q == p.binop("or"@, op, names)
            &&& op.op_type@ == "XorOp"@ ==> q == p.binop("xor"@, op, names)
            &&& op.op_type@ == "FAddOp"@ ==> q == p.binop("fadd"@, op, names)
            &&& op.op_type@ == "FSubOp"@ ==> q == p.binop("fsub"@, op, names)
            &&& op.op_type@ == "FMulOp"@ ==> q == p.binop("fmul"@, op, names)
            &&& op.op_type@ == "FDivOp"@ ==> q == p.binop("fdiv"@, op, names)
            &&& op.op_type@ == "FRemOp"@ ==> q == p.binop("frem"@, op, names)
        }),
{
    if op.op_type@ == "AddOp"@ {
        lemma_dispatch(p, op, names, labels, n, LlvmOp::Add);
    }
    if op.op_type@ == "SubOp"@ {
        lemma_dispatch(p, op, names, labels, n, LlvmOp::Sub);
    }
    if op.op_type@ == "MulOp"@ {
        lemma_dispatch(p, op, names, labels, n, LlvmOp::Mul);
    }
    if op.op_type@ == "SDivOp"@ {
        lemma_dispatch(p, op, names, labels, n, LlvmOp::SDiv);
    }
    if op.op_type@ == "UDivOp"@ {
        lemma_dispatch(p, op, names, labels, n, LlvmOp::UDiv);
    }
    if op.op_type@ == "SRemOp"@ {
        lemma_dispatch(p, op, names, labels, n, LlvmOp::SRem);
    }
    if op.op_type@ == "URemOp"@ {
        lemma_dispatch(p, op, names, labels, n, LlvmOp::URem);
    }
    if op.op_type@ == "ShlOp"@ {
        lemma_dispatch(p, op, names, labels, n, LlvmOp::Shl);
    }
    if op.op_type@ == "LShrOp"@ {
        lemma_dispatch(p, op, names, labels, n, LlvmOp::LShr);
    }
    if op.op_type@ == "AShrOp"@ {
        lemma_dispatch(p, op, names, labels, n, LlvmOp::AShr);
    }
    if op.op_type@ == "AndOp"@ {
        lemma_dispatch(p, op, names, labels, n, LlvmOp::And);
    }
    if op.op_type@ == "OrOp"@ {
        lemma_dispatch(p, op, names, labels, n, LlvmOp::Or);
    }
    if op.op_type@ == "XorOp"@ {
        lemma_dispatch(p, op, names, labels, n, LlvmOp::Xor);
    }
    if op.op_type@ == "FAddOp"@ {
        lemma_dispatch(p, op, names, labels, n, LlvmOp::FAdd);
    }
    if op.op_type@ == "FSubOp"@ {
        lemma_dispatch(p, op, names, labels, n, LlvmOp::FSub);
    }
    if op.op_type@ == "FMulOp"@ {
        lemma_dispatch(p, op, names, labels, n, LlvmOp::FMul);
    }
    if op.op_type@ == "FDivOp"@ {
        lemma_dispatch(p, op, names, labels, n, LlvmOp::FDiv);
    }
    if op.op_type@ == "FRemOp"@ {
        lemma_dispatch(p, op, names, labels, n, LlvmOp::FRem);
    }
}

/// Casts are printed with their mnemonics.
pub proof fn law_casts(
    p: Printer,
    op: Operation,
    names: Map<u64, Seq<char>>,
    labels: Map<u64, Seq<char>>,
    n: nat,
)
    ensures
        ({
            let q = p.operation(op, names, labels, n);
            &&& op.op_type@ == "BitcastOp"@ ==> q == p.cast("bitcast"@, op, names)
            &&& op.op_type@ == "AddrSpaceCastOp"@ ==> q == p.cast("addrspacecast"@, op, names)
            &&& op.op_type@ == "SExtOp"@ ==> q == p.cast("sext"@, op, names)
            &&& op.op_type@ == "TruncOp"@ ==> q == p.cast("trunc"@, op, names)
            &&& op.op_type@ == "PtrToIntOp"@ ==> q == p.cast("ptrtoint"@, op, names)
            &&& op.op_type@ == "IntToPtrOp"@ ==> q == p.cast("inttoptr"@, op, names)
            &&& op.op_type@ == "UIToFPOp"@ ==> q == p.cast("uitofp"@, op, names)
            &&& op.op_type@ == "SIToFPOp"@ ==> q == p.cast("sitofp"@, op, names)
            &&& op.op_type@ == "FPToUIOp"@ ==> q == p.cast("fptoui"@, op, names)
            &&& op.op_type@ == "FPToSIOp"@ ==> q == p.cast("fptosi"@, op, names)
            &&& op.op_type@ == "FPExtOp"@ ==> q == p.cast("fpext"@, op, names)
            &&& op.op_type@ == "FPTruncOp"@ ==> q == p.cast("fptrunc"@, op, names)
        }),
{
    if op.op_type@ == "BitcastOp"@ {
        lemma_dispatch(p, op, names, labels, n, LlvmOp::Bitcast);
    }
    if op.op_type@ == "AddrSpaceCastOp"@ {
        lemma_dispatch(p, op, names, labels, n, LlvmOp::AddrSpaceCast);
    }
    if op.op_type@ == "SExtOp"@ {
        lemma_dispatch(p, op, names, labels, n, LlvmOp::SExt);
    }
    if op.op_type@ == "TruncOp"@ {
        lemma_dispatch(p, op, names, labels, n, LlvmOp::Trunc);
    }
    if op.op_type@ == "PtrToIntOp"@ {
        lemma_dispatch(p, op, names, labels, n, LlvmOp::PtrToInt);
    }
    if op.op_type@ == "IntToPtrOp"@ {
        lemma_dispatch(p, op, names, labels, n, LlvmOp::IntToPtr);
    }
    if op.op_type@ == "UIToFPOp"@ {
        lemma_dispatch(p, op, names, labels, n, LlvmOp::UIToFP);
    }
    if op.op_type@ == "SIToFPOp"@ {
        lemma_dispatch(p, op, names, labels, n, LlvmOp::SIToFP);
    }
    if op.op_type@ == "FPToUIOp"@ {
        lemma_dispatch(p, op, names, labels, n, LlvmOp::FPToUI);
    }
    if op.op_type@ == "FPToSIOp"@ {
        lemma_dispatch(p, op, names, labels, n, LlvmOp::FPToSI);
    }
    if op.op_type@ == "FPExtOp"@ {
        lemma_dispatch(p, op, names, labels, n, LlvmOp::FPExt);
    }
    if op.op_type@ == "FPTruncOp"@ {
        lemma_dispatch(p, op, names, labels, n, LlvmOp::FPTrunc);
    }
}

/// Returns, unreachable code and jumps are printed as what the name of their type
/// says.
pub proof fn law_terminators(
    p: Printer,
    op: Operation,
    names: Map<u64, Seq<char>>,
    labels: Map<u64, Seq<char>>,
    n: nat,
)
    ensures
        ({
            let q = p.operation(op, names, labels, n);
            &&& op.op_type@ == "ReturnOp"@ ==> q == p.ret(op, names)
            &&& op.op_type@ == "UnreachableOp"@ ==> q == p.text("  unreachable\n"@)
            &&& op.op_type@ == "BrOp"@ ==> q == p.br(op, labels)
            &&& op.op_type@ == "CondBrOp"@ ==> q == p.cond_br(op, names, labels)
        }),
{
    let q = p.operation(op, names, labels, n);
    assert(op.op_type@ == "ReturnOp"@ ==> q == p.ret(op, names)) by {
        reveal(Printer::operation);
        lemma_of_type(LlvmOp::Return);
    }
    assert(op.op_type@ == "UnreachableOp"@ ==> q == p.text("  unreachable\n"@)) by {
        reveal(Printer::operation);
        lemma_of_type(LlvmOp::Unreachable);
    }
    assert(op.op_type@ == "BrOp"@ ==> q == p.br(op, labels)) by {
        reveal(Printer::operation);
        lemma_of_type(LlvmOp::Br);
    }
    assert(op.op_type@ == "CondBrOp"@ ==> q == p.cond_br(op, names, labels)) by {
        reveal(Printer::operation);
        lemma_of_type(LlvmOp::CondBr);
    }
}

/// Loads, stores, allocations and address computations are printed as what the
/// name of their type says.
pub proof fn law_memory_operations(
    p: Printer,
    op: Operation,
    names: Map<u64, Seq<char>>,
    labels: Map<u64, Seq<char>>,
    n: nat,
)
    ensures
        ({
            let q = p.operation(op, names, labels, n);
            &&& op.op_type@ == "LoadOp"@ ==> q == p.load(op, names)
            &&& op.op_type@ == "StoreOp"@ ==> q == p.store(op, names)
            &&& op.op_type@ == "AllocaOp"@ ==> q == p.alloca(op, names)
            &&& op.op_type@ == "GetElementPtrOp"@ ==> q == p.gep(op, names)
        }),
{
    let q = p.operation(op, names, labels, n);
    assert(op.op_type@ == "LoadOp"@ ==> q == p.load(op, names)) by {
        reveal(Printer::operation);
        lemma_of_type(LlvmOp::Load);
    }
    assert(op.op_type@ == "StoreOp"@ ==> q == p.store(op, names)) by {
        reveal(Printer::operation);
        lemma_of_type(LlvmOp::Store);
    }
    assert(op.op_type@ == "AllocaOp"@ ==> q == p.alloca(op, names)) by {
        reveal(Printer::operation);
        lemma_of_type(LlvmOp::Alloca);
    }
    assert(op.op_type@ == "GetElementPtrOp"@ ==> q == p.gep(op, names)) by {
        reveal(Printer::operation);
        lemma_of_type(LlvmOp::GetElementPtr);
    }
}

/// Atomic operations are printed as what the name of their type says.
pub proof fn law_atomic_operations(
    p: Printer,
    op: Operation,
    names: Map<u64, Seq<char>>,
    labels: Map<u64, Seq<char>>,
    n: nat,
)
    ensures
        ({
            let q = p.operation(op, names, labels, n);
            &&& op.op_type@ == "AtomicLoadOp"@ ==> q == p.atomic_load(op, names)
            &&& op.op_type@ == "AtomicStoreOp"@ ==> q == p.atomic_store(op, names)
            &&& op.op_type@ == "AtomicRmwOp"@ ==> q == p.atomic_rmw(op, names)
            &&& op.op_type@ == "AtomicCmpxchgOp"@ ==> q == p.atomic_cmpxchg(op, names)
            &&& op.op_type@ == "FenceOp"@ ==> q == p.fence(op)
        }),
{
    let q = p.operation(op, names, labels, n);
    assert(op.op_type@ == "AtomicLoadOp"@ ==> q == p.atomic_load(op, names)) by {
        reveal(Printer::operation);
        lemma_of_type(LlvmOp::AtomicLoad);
    }
    assert(op.op_type@ == "AtomicStoreOp"@ ==> q == p.atomic_store(op, names)) by {
        reveal(Printer::operation);
        lemma_of_type(LlvmOp::AtomicStore);
    }
    assert(op.op_type@ == "AtomicRmwOp"@ ==> q == p.atomic_rmw(op, names)) by {
        reveal(Printer::operation);
        lemma_of_type(LlvmOp::AtomicRmw);
    }
    assert(op.op_type@ == "AtomicCmpxchgOp"@ ==> q == p.atomic_cmpxchg(op, names)) by {
        reveal(Printer::operation);
        lemma_of_type(LlvmOp::AtomicCmpxchg);
    }
    assert(op.op_type@ == "FenceOp"@ ==> q == p.fence(op)) by {
        reveal(Printer::operation);
        lemma_of_type(LlvmOp::Fence);
    }
}

/// Negations, comparisons, choices, zero extensions and operations on aggregates
/// are printed as what the name of their type says; comparisons with the keyword
/// of their predicate.
pub proof fn law_scalar_operations(
    p: Printer,
    op: Operation,
    names: Map<u64, Seq<char>>,
    labels: Map<u64, Seq<char>>,
    n: nat,
)
    ensures
        ({
            let q = p.operation(op, names, labels, n);
            &&& op.op_type@ == "FNegOp"@ ==> q == p.fneg(op, names)
            &&& op.op_type@ == "ICmpOp"@ ==> q == p.comparison(
                "icmp"@,
                op.attrs->ICmp_0.keyword(),
                op,
                names,
            )
            &&& op.op_type@ == "FCmpOp"@ ==> q == p.comparison(
                "fcmp"@,
                op.attrs->FCmp_0.keyword(),
                op,
                names,
            )
            &&& op.op_type@ == "SelectOp"@ ==> q == p.select(op, names)
            &&& op.op_type@ == "ZExtOp"@ ==> q == p.zext(op, names)
            &&& op.op_type@ == "ExtractValueOp"@ ==> q == p.extract_value(op, names)
            &&& op.op_type@ == "InsertValueOp"@ ==> q == p.insert_value(op, names)
        }),
{
    let q = p.operation(op, names, labels, n);
    assert(op.op_type@ == "FNegOp"@ ==> q == p.fneg(op, names)) by {
        reveal(Printer::operation);
        lemma_of_type(LlvmOp::FNeg);
    }
    assert(op.op_type@ == "ICmpOp"@ ==> q == p.comparison(
            "icmp"@,
            op.attrs->ICmp_0.keyword(),
            op,
            names,
        )) by {
        reveal(Printer::operation);
        lemma_of_type(LlvmOp::ICmp);
    }
    assert(op.op_type@ == "FCmpOp"@ ==> q == p.comparison(
            "fcmp"@,
            op.attrs->FCmp_0.keyword(),
            op,
            names,
        )) by {
        reveal(Printer::operation);
        lemma_of_type(LlvmOp::FCmp);
    }
    assert(op.op_type@ == "SelectOp"@ ==> q == p.select(op, names)) by {
        reveal(Printer::operation);
        lemma_of_type(LlvmOp::Select);
    }
    assert(op.op_type@ == "ZExtOp"@ ==> q == p.zext(op, names)) by {
        reveal(Printer::operation);
        lemma_of_type(LlvmOp::ZExt);
    }
    assert(op.op_type@ == "ExtractValueOp"@ ==> q == p.extract_value(op, names)) by {
        reveal(Printer::operation);
        lemma_of_type(LlvmOp::ExtractValue);
    }
    assert(op.op_type@ == "InsertValueOp"@ ==> q == p.insert_value(op, names)) by {
        reveal(Printer::operation);
        lemma_of_type(LlvmOp::InsertValue);
    }
}

/// Calls and assembly are printed as what the name of their type says.
pub proof fn law_call_operations(
    p: Printer,
    op: Operation,
    names: Map<u64, Seq<char>>,
    labels: Map<u64, Seq<char>>,
    n: nat,
)
    ensures
        ({
            let q = p.operation(op, names, labels, n);
            &&& op.op_type@ == "CallOp"@ ==> q == p.call(op, names, n)
            &&& op.op_type@ == "InlineAsmOp"@ ==> q == p.inline_asm(op, names)
            &&& op.op_type@ == "InlineAsmMultiOp"@ ==> q == p.inline_asm_multi(op, names)
        }),
{
    let q = p.operation(op, names, labels, n);
    assert(op.op_type@ == "CallOp"@ ==> q == p.call(op, names, n)) by {
        reveal(Printer::operation);
        lemma_of_type(LlvmOp::Call);
    }
    assert(op.op_type@ == "InlineAsmOp"@ ==> q == p.inline_asm(op, names)) by {
        reveal(Printer::operation);
        lemma_of_type(LlvmOp::InlineAsm);
    }
    assert(op.op_type@ == "InlineAsmMultiOp"@ ==> q == p.inline_asm_multi(op, names)) by {
        reveal(Printer::operation);
        lemma_of_type(LlvmOp::InlineAsmMulti);
    }
}

/// Virtual operations print nothing and change nothing.
pub proof fn law_virtual_operations(
    p: Printer,
    op: Operation,
    names: Map<u64, Seq<char>>,
    labels: Map<u64, Seq<char>>,
    n: nat,
)
    ensures
        ({
            let q = p.operation(op, names, labels, n);
            &&& op.op_type@ == "UndefOp"@ ==> q == p
            &&& op.op_type@ == "ConstantOp"@ ==> q == p
            &&& op.op_type@ == "AddressOfOp"@ ==> q == p
        }),
{
    let q = p.operation(op, names, labels, n);
    assert(op.op_type@ == "UndefOp"@ ==> q == p) by {
        reveal(Printer::operation);
        lemma_of_type(LlvmOp::Undef);
    }
    assert(op.op_type@ == "ConstantOp"@ ==> q == p) by {
        reveal(Printer::operation);
        lemma_of_type(LlvmOp::Constant);
    }
    assert(op.op_type@ == "AddressOfOp"@ ==> q == p) by {
        reveal(Printer::operation);
        lemma_of_type(LlvmOp::AddressOf);
    }
}

/// An operation of any other type is printed as a comment that holds its
/// identifier.
pub proof fn law_unknown_operations(
    p: Printer,
    op: Operation,
    names: Map<u64, Seq<char>>,
    labels: Map<u64, Seq<char>>,
    n: nat,
)
    requires
        p.error is None,
        !is_type_name(op.op_type@),
    ensures
        p.operation(op, names, labels, n) == (Printer {
            out: p.out + "  ; Unknown op: "@ + op.opid@ + "\n"@,
            ..p
        }),
{
    reveal(Printer::operation);
    lemma_called(op.op_type@);
}

/// Every predicate has the keyword that LLVM gives it.
pub proof fn law_predicates()
    ensures
        ICmpPredicateAttr::EQ.keyword() == "eq"@,
        ICmpPredicateAttr::NE.keyword() == "ne"@,
        ICmpPredicateAttr::SLT.keyword() == "slt"@,
        ICmpPredicateAttr::SLE.keyword() == "sle"@,
        ICmpPredicateAttr::SGT.keyword() == "sgt"@,
        ICmpPredicateAttr::SGE.keyword() == "sge"@,
        ICmpPredicateAttr::ULT.keyword() == "ult"@,
        ICmpPredicateAttr::ULE.keyword() == "ule"@,
        ICmpPredicateAttr::UGT.keyword() == "ugt"@,
        ICmpPredicateAttr::UGE.keyword() == "uge"@,
        FCmpPredicateAttr::False.keyword() == "false"@,
        FCmpPredicateAttr::OEQ.keyword() == "oeq"@,
        FCmpPredicateAttr::OGT.keyword() == "ogt"@,
        FCmpPredicateAttr::OGE.keyword() == "oge"@,
        FCmpPredicateAttr::OLT.keyword() == "olt"@,
        FCmpPredicateAttr::OLE.keyword() == "ole"@,
        FCmpPredicateAttr::ONE.keyword() == "one"@,
        FCmpPredicateAttr::ORD.keyword() == "ord"@,
        FCmpPredicateAttr::UEQ.keyword() == "ueq"@,
        FCmpPredicateAttr::UGT.keyword() == "ugt"@,
        FCmpPredicateAttr::UGE.keyword() == "uge"@,
        FCmpPredicateAttr::ULT.keyword() == "ult"@,
        FCmpPredicateAttr::ULE.keyword() == "ule"@,
        FCmpPredicateAttr::UNE.keyword() == "une"@,
        FCmpPredicateAttr::UNO.keyword() == "uno"@,
        FCmpPredicateAttr::True.keyword() == "true"@,
{
}

} // verus!
