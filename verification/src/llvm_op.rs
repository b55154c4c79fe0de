//! The operations of the LLVM dialect that have a textual form.
use vstd::prelude::*;

use crate::text::same_text;

verus! {

/// The operations that can be exported.
///
/// A new one takes a variant here, its type name below, a method of the export
/// state that prints it, and an arm in the dispatch.
#[derive(Clone, Copy, Debug, PartialEq, Eq, Structural)]
#[allow(missing_docs)]
pub enum LlvmOp {
    // Terminators
    Return,
    Unreachable,
    Br,
    CondBr,
    // Memory
    Load,
    Store,
    Alloca,
    GetElementPtr,
    // Atomics
    AtomicLoad,
    AtomicStore,
    AtomicRmw,
    AtomicCmpxchg,
    Fence,
    // Integer arithmetic
    Add,
    Sub,
    Mul,
    SDiv,
    UDiv,
    SRem,
    URem,
    Shl,
    LShr,
    AShr,
    And,
    Or,
    Xor,
    // Float arithmetic
    FAdd,
    FSub,
    FMul,
    FDiv,
    FRem,
    FNeg,
    // Comparison and choice
    ICmp,
    FCmp,
    Select,
    // Calls and inline assembly
    Call,
    InlineAsm,
    InlineAsmMulti,
    // Casts
    Bitcast,
    AddrSpaceCast,
    ZExt,
    SExt,
    Trunc,
    PtrToInt,
    IntToPtr,
    UIToFP,
    SIToFP,
    FPToUI,
    FPToSI,
    FPExt,
    FPTrunc,
    // Aggregates
    ExtractValue,
    InsertValue,
    // Virtual operations
    Undef,
    Constant,
    AddressOf,
}

impl LlvmOp {
    /// The name of the operation's type.
    pub open spec fn called(self) -> Seq<char> {
        match self {
            LlvmOp::Return => "ReturnOp"@,
            LlvmOp::Unreachable => "UnreachableOp"@,
            LlvmOp::Br => "BrOp"@,
            LlvmOp::CondBr => "CondBrOp"@,
            LlvmOp::Load => "LoadOp"@,
            LlvmOp::Store => "StoreOp"@,
            LlvmOp::Alloca => "AllocaOp"@,
            LlvmOp::GetElementPtr => "GetElementPtrOp"@,
            LlvmOp::AtomicLoad => "AtomicLoadOp"@,
            LlvmOp::AtomicStore => "AtomicStoreOp"@,
            LlvmOp::AtomicRmw => "AtomicRmwOp"@,
            LlvmOp::AtomicCmpxchg => "AtomicCmpxchgOp"@,
            LlvmOp::Fence => "FenceOp"@,
            LlvmOp::Add => "AddOp"@,
            LlvmOp::Sub => "SubOp"@,
            LlvmOp::Mul => "MulOp"@,
            LlvmOp::SDiv => "SDivOp"@,
            LlvmOp::UDiv => "UDivOp"@,
            LlvmOp::SRem => "SRemOp"@,
            LlvmOp::URem => "URemOp"@,
            LlvmOp::Shl => "ShlOp"@,
            LlvmOp::LShr => "LShrOp"@,
            LlvmOp::AShr => "AShrOp"@,
            LlvmOp::And => "AndOp"@,
            LlvmOp::Or => "OrOp"@,
            LlvmOp::Xor => "XorOp"@,
            LlvmOp::FAdd => "FAddOp"@,
            LlvmOp::FSub => "FSubOp"@,
            LlvmOp::FMul => "FMulOp"@,
            LlvmOp::FDiv => "FDivOp"@,
            LlvmOp::FRem => "FRemOp"@,
            LlvmOp::FNeg => "FNegOp"@,
            LlvmOp::ICmp => "ICmpOp"@,
            LlvmOp::FCmp => "FCmpOp"@,
            LlvmOp::Select => "SelectOp"@,
            LlvmOp::Call => "CallOp"@,
            LlvmOp::InlineAsm => "InlineAsmOp"@,
            LlvmOp::InlineAsmMulti => "InlineAsmMultiOp"@,
            LlvmOp::Bitcast => "BitcastOp"@,
            LlvmOp::AddrSpaceCast => "AddrSpaceCastOp"@,
            LlvmOp::ZExt => "ZExtOp"@,
            LlvmOp::SExt => "SExtOp"@,
            LlvmOp::Trunc => "TruncOp"@,
            LlvmOp::PtrToInt => "PtrToIntOp"@,
            LlvmOp::IntToPtr => "IntToPtrOp"@,
            LlvmOp::UIToFP => "UIToFPOp"@,
            LlvmOp::SIToFP => "SIToFPOp"@,
            LlvmOp::FPToUI => "FPToUIOp"@,
            LlvmOp::FPToSI => "FPToSIOp"@,
            LlvmOp::FPExt => "FPExtOp"@,
            LlvmOp::FPTrunc => "FPTruncOp"@,
            LlvmOp::ExtractValue => "ExtractValueOp"@,
            LlvmOp::InsertValue => "InsertValueOp"@,
            LlvmOp::Undef => "UndefOp"@,
            LlvmOp::Constant => "ConstantOp"@,
            LlvmOp::AddressOf => "AddressOfOp"@,
        }
    }

    /// The operation whose type has a name, if there is one.
    #[verifier::opaque]
    pub open spec fn of_type(name: Seq<char>) -> Option<LlvmOp> {
        if exists|op: LlvmOp| #[trigger] op.called() == name {
            Some(choose|op: LlvmOp| #[trigger] op.called() == name)
        } else {
            None
        }
    }

    /// The operation whose type has the name `op_type`.
    pub fn try_from(op_type: &str) -> (r: Result<Self, ()>)
        ensures
            match r {
                Ok(op) => op.called() == op_type@,
                Err(_) => forall|op: LlvmOp| #[trigger] op.called() != op_type@,
            },
    {
        if same_text(op_type, "ReturnOp") {
            return Ok(LlvmOp::Return);
        }
        if same_text(op_type, "UnreachableOp") {
            return Ok(LlvmOp::Unreachable);
        }
        if same_text(op_type, "BrOp") {
            return Ok(LlvmOp::Br);
        }
        if same_text(op_type, "CondBrOp") {
            return Ok(LlvmOp::CondBr);
        }
        if same_text(op_type, "LoadOp") {
            return Ok(LlvmOp::Load);
        }
        if same_text(op_type, "StoreOp") {
            return Ok(LlvmOp::Store);
        }
        if same_text(op_type, "AllocaOp") {
            return Ok(LlvmOp::Alloca);
        }
        if same_text(op_type, "GetElementPtrOp") {
            return Ok(LlvmOp::GetElementPtr);
        }
        if same_text(op_type, "AtomicLoadOp") {
            return Ok(LlvmOp::AtomicLoad);
        }
        if same_text(op_type, "AtomicStoreOp") {
            return Ok(LlvmOp::AtomicStore);
        }
        if same_text(op_type, "AtomicRmwOp") {
            return Ok(LlvmOp::AtomicRmw);
        }
        if same_text(op_type, "AtomicCmpxchgOp") {
            return Ok(LlvmOp::AtomicCmpxchg);
        }
        if same_text(op_type, "FenceOp") {
            return Ok(LlvmOp::Fence);
        }
        if same_text(op_type, "AddOp") {
            return Ok(LlvmOp::Add);
        }
        if same_text(op_type, "SubOp") {
            return Ok(LlvmOp::Sub);
        }
        if same_text(op_type, "MulOp") {
            return Ok(LlvmOp::Mul);
        }
        if same_text(op_type, "SDivOp") {
            return Ok(LlvmOp::SDiv);
        }
        if same_text(op_type, "UDivOp") {
            return Ok(LlvmOp::UDiv);
        }
        if same_text(op_type, "SRemOp") {
            return Ok(LlvmOp::SRem);
        }
        if same_text(op_type, "URemOp") {
            return Ok(LlvmOp::URem);
        }
        if same_text(op_type, "ShlOp") {
            return Ok(LlvmOp::Shl);
        }
        if same_text(op_type, "LShrOp") {
            return Ok(LlvmOp::LShr);
        }
        if same_text(op_type, "AShrOp") {
            return Ok(LlvmOp::AShr);
        }
        if same_text(op_type, "AndOp") {
            return Ok(LlvmOp::And);
        }
        if same_text(op_type, "OrOp") {
            return Ok(LlvmOp::Or);
        }
        if same_text(op_type, "XorOp") {
            return Ok(LlvmOp::Xor);
        }
        if same_text(op_type, "FAddOp") {
            return Ok(LlvmOp::FAdd);
        }
        if same_text(op_type, "FSubOp") {
            return Ok(LlvmOp::FSub);
        }
        if same_text(op_type, "FMulOp") {
            return Ok(LlvmOp::FMul);
        }
        if same_text(op_type, "FDivOp") {
            return Ok(LlvmOp::FDiv);
        }
        if same_text(op_type, "FRemOp") {
            return Ok(LlvmOp::FRem);
        }
        if same_text(op_type, "FNegOp") {
            return Ok(LlvmOp::FNeg);
        }
        if same_text(op_type, "ICmpOp") {
            return Ok(LlvmOp::ICmp);
        }
        if same_text(op_type, "FCmpOp") {
            return Ok(LlvmOp::FCmp);
        }
        if same_text(op_type, "SelectOp") {
            return Ok(LlvmOp::Select);
        }
        if same_text(op_type, "CallOp") {
            return Ok(LlvmOp::Call);
        }
        if same_text(op_type, "InlineAsmOp") {
            return Ok(LlvmOp::InlineAsm);
        }
        if same_text(op_type, "InlineAsmMultiOp") {
            return Ok(LlvmOp::InlineAsmMulti);
        }
        if same_text(op_type, "BitcastOp") {
            return Ok(LlvmOp::Bitcast);
        }
        if same_text(op_type, "AddrSpaceCastOp") {
            return Ok(LlvmOp::AddrSpaceCast);
        }
        if same_text(op_type, "ZExtOp") {
            return Ok(LlvmOp::ZExt);
        }
        if same_text(op_type, "SExtOp") {
            return Ok(LlvmOp::SExt);
        }
        if same_text(op_type, "TruncOp") {
            return Ok(LlvmOp::Trunc);
        }
        if same_text(op_type, "PtrToIntOp") {
            return Ok(LlvmOp::PtrToInt);
        }
        if same_text(op_type, "IntToPtrOp") {
            return Ok(LlvmOp::IntToPtr);
        }
        if same_text(op_type, "UIToFPOp") {
            return Ok(LlvmOp::UIToFP);
        }
        if same_text(op_type, "SIToFPOp") {
            return Ok(LlvmOp::SIToFP);
        }
        if same_text(op_type, "FPToUIOp") {
            return Ok(LlvmOp::FPToUI);
        }
        if same_text(op_type, "FPToSIOp") {
            return Ok(LlvmOp::FPToSI);
        }
        if same_text(op_type, "FPExtOp") {
            return Ok(LlvmOp::FPExt);
        }
        if same_text(op_type, "FPTruncOp") {
            return Ok(LlvmOp::FPTrunc);
        }
        if same_text(op_type, "ExtractValueOp") {
            return Ok(LlvmOp::ExtractValue);
        }
        if same_text(op_type, "InsertValueOp") {
            return Ok(LlvmOp::InsertValue);
        }
        if same_text(op_type, "UndefOp") {
            return Ok(LlvmOp::Undef);
        }
        if same_text(op_type, "ConstantOp") {
            return Ok(LlvmOp::Constant);
        }
        if same_text(op_type, "AddressOfOp") {
            return Ok(LlvmOp::AddressOf);
        }
        Err(())
    }

    /// The mnemonic of an operation on two values of the same type.
    pub open spec fn binop(self) -> Option<Seq<char>> {
        match self {
            LlvmOp::Add => Some("add"@),
            LlvmOp::Sub => Some("sub"@),
            LlvmOp::Mul => Some("mul"@),
            LlvmOp::SDiv => Some("sdiv"@),
            LlvmOp::UDiv => Some("udiv"@),
            LlvmOp::SRem => Some("srem"@),
            LlvmOp::URem => Some("urem"@),
            LlvmOp::Shl => Some("shl"@),
            LlvmOp::LShr => Some("lshr"@),
            LlvmOp::AShr => Some("ashr"@),
            LlvmOp::And => Some("and"@),
            LlvmOp::Or => Some("or"@),
            LlvmOp::Xor => Some("xor"@),
            LlvmOp::FAdd => Some("fadd"@),
            LlvmOp::FSub => Some("fsub"@),
            LlvmOp::FMul => Some("fmul"@),
            LlvmOp::FDiv => Some("fdiv"@),
            LlvmOp::FRem => Some("frem"@),
            _ => None,
        }
    }

    /// The mnemonic of an operation on two values of the same type.
    pub fn binop_mnemonic(self) -> (r: Option<&'static str>)
        ensures
            match r {
                Some(s) => self.binop() == Some(s@),
                None => self.binop() is None,
            },
    {
        match self {
            LlvmOp::Add => Some("add"),
            LlvmOp::Sub => Some("sub"),
            LlvmOp::Mul => Some("mul"),
            LlvmOp::SDiv => Some("sdiv"),
            LlvmOp::UDiv => Some("udiv"),
            LlvmOp::SRem => Some("srem"),
            LlvmOp::URem => Some("urem"),
            LlvmOp::Shl => Some("shl"),
            LlvmOp::LShr => Some("lshr"),
            LlvmOp::AShr => Some("ashr"),
            LlvmOp::And => Some("and"),
            LlvmOp::Or => Some("or"),
            LlvmOp::Xor => Some("xor"),
            LlvmOp::FAdd => Some("fadd"),
            LlvmOp::FSub => Some("fsub"),
            LlvmOp::FMul => Some("fmul"),
            LlvmOp::FDiv => Some("fdiv"),
            LlvmOp::FRem => Some("frem"),
            _ => None,
        }
    }

    /// The mnemonic of a cast without flags.
    pub open spec fn cast(self) -> Option<Seq<char>> {
        match self {
            LlvmOp::Bitcast => Some("bitcast"@),
            LlvmOp::AddrSpaceCast => Some("addrspacecast"@),
            LlvmOp::SExt => Some("sext"@),
            LlvmOp::Trunc => Some("trunc"@),
            LlvmOp::PtrToInt => Some("ptrtoint"@),
            LlvmOp::IntToPtr => Some("inttoptr"@),
            LlvmOp::UIToFP => Some("uitofp"@),
            LlvmOp::SIToFP => Some("sitofp"@),
            LlvmOp::FPToUI => Some("fptoui"@),
            LlvmOp::FPToSI => Some("fptosi"@),
            LlvmOp::FPExt => Some("fpext"@),
            LlvmOp::FPTrunc => Some("fptrunc"@),
            _ => None,
        }
    }

    /// The mnemonic of a cast without flags.
    pub fn cast_mnemonic(self) -> (r: Option<&'static str>)
        ensures
            match r {
                Some(s) => self.cast() == Some(s@),
                None => self.cast() is None,
            },
    {
        match self {
            LlvmOp::Bitcast => Some("bitcast"),
            LlvmOp::AddrSpaceCast => Some("addrspacecast"),
            LlvmOp::SExt => Some("sext"),
            LlvmOp::Trunc => Some("trunc"),
            LlvmOp::PtrToInt => Some("ptrtoint"),
            LlvmOp::IntToPtr => Some("inttoptr"),
            LlvmOp::UIToFP => Some("uitofp"),
            LlvmOp::SIToFP => Some("sitofp"),
            LlvmOp::FPToUI => Some("fptoui"),
            LlvmOp::FPToSI => Some("fptosi"),
            LlvmOp::FPExt => Some("fpext"),
            LlvmOp::FPTrunc => Some("fptrunc"),
            _ => None,
        }
    }

    /// Whether the operation is a terminator.
    pub open spec fn is_terminator(self) -> bool {
        self is Return || self is Unreachable || self is Br || self is CondBr
    }

    /// Whether the operation is one on memory that is not atomic.
    pub open spec fn is_memory(self) -> bool {
        self is Load || self is Store || self is Alloca || self is GetElementPtr
    }

    /// Whether the operation is atomic.
    pub open spec fn is_atomic(self) -> bool {
        self is AtomicLoad || self is AtomicStore || self is AtomicRmw || self is AtomicCmpxchg
            || self is Fence
    }

    /// Whether the operation is a call or assembly.
    pub open spec fn is_call(self) -> bool {
        self is Call || self is InlineAsm || self is InlineAsmMulti
    }

    /// Whether the operation is virtual: it prints nothing.
    pub open spec fn is_virtual(self) -> bool {
        self is Undef || self is Constant || self is AddressOf
    }
}

/// What an operation type is called tells which operation it is.
#[verifier::rlimit(40)]
pub proof fn law_type_names_differ(a: LlvmOp, b: LlvmOp)
    requires
        a.called() == b.called(),
    ensures
        a == b,
{
    reveal_strlit("ReturnOp");
    reveal_strlit("UnreachableOp");
    reveal_strlit("BrOp");
    reveal_strlit("CondBrOp");
    reveal_strlit("LoadOp");
    reveal_strlit("StoreOp");
    reveal_strlit("AllocaOp");
    reveal_strlit("GetElementPtrOp");
    reveal_strlit("AtomicLoadOp");
    reveal_strlit("AtomicStoreOp");
    reveal_strlit("AtomicRmwOp");
    reveal_strlit("AtomicCmpxchgOp");
    reveal_strlit("FenceOp");
    reveal_strlit("AddOp");
    reveal_strlit("SubOp");
    reveal_strlit("MulOp");
    reveal_strlit("SDivOp");
    reveal_strlit("UDivOp");
    reveal_strlit("SRemOp");
    reveal_strlit("URemOp");
    reveal_strlit("ShlOp");
    reveal_strlit("LShrOp");
    reveal_strlit("AShrOp");
    reveal_strlit("AndOp");
    reveal_strlit("OrOp");
    reveal_strlit("XorOp");
    reveal_strlit("FAddOp");
    reveal_strlit("FSubOp");
    reveal_strlit("FMulOp");
    reveal_strlit("FDivOp");
    reveal_strlit("FRemOp");
    reveal_strlit("FNegOp");
    reveal_strlit("ICmpOp");
    reveal_strlit("FCmpOp");
    reveal_strlit("SelectOp");
    reveal_strlit("CallOp");
    reveal_strlit("InlineAsmOp");
    reveal_strlit("InlineAsmMultiOp");
    reveal_strlit("BitcastOp");
    reveal_strlit("AddrSpaceCastOp");
    reveal_strlit("ZExtOp");
    reveal_strlit("SExtOp");
    reveal_strlit("TruncOp");
    reveal_strlit("PtrToIntOp");
    reveal_strlit("IntToPtrOp");
    reveal_strlit("UIToFPOp");
    reveal_strlit("SIToFPOp");
    reveal_strlit("FPToUIOp");
    reveal_strlit("FPToSIOp");
    reveal_strlit("FPExtOp");
    reveal_strlit("FPTruncOp");
    reveal_strlit("ExtractValueOp");
    reveal_strlit("InsertValueOp");
    reveal_strlit("UndefOp");
    reveal_strlit("ConstantOp");
    reveal_strlit("AddressOfOp");
    let (x, y) = (a.called(), b.called());
    assert(x.len() == y.len() && x[0] == y[0] && x[1] == y[1] && x[4] == y[4]);
}

/// The operation of a type name.
pub proof fn lemma_of_type(op: LlvmOp)
    ensures
        LlvmOp::of_type(op.called()) == Some(op),
{
    reveal(LlvmOp::of_type);
    let found = choose|x: LlvmOp| #[trigger] x.called() == op.called();
    law_type_names_differ(found, op);
}

/// The operation that a type name belongs to has that name.
pub proof fn lemma_called(name: Seq<char>)
    ensures
        LlvmOp::of_type(name) matches Some(op) ==> op.called() == name,
{
    reveal(LlvmOp::of_type);
}

/// A name that no operation's type has is that of none.
pub proof fn lemma_of_no_type(name: Seq<char>)
    requires
        forall|op: LlvmOp| #[trigger] op.called() != name,
    ensures
        LlvmOp::of_type(name) is None,
{
    reveal(LlvmOp::of_type);
}

} // verus!
