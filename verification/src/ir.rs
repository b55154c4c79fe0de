//! Operations, values and types, as the exporter reads them.
//!
//! These are plain descriptions of a module in the LLVM dialect: what an
//! operation's type is called, what it takes and gives, and the attributes
//! that its text depends on.
use vstd::prelude::*;

verus! {

/// What the exporter distinguishes among types.
#[derive(Clone, Copy, Debug, PartialEq, Eq, Structural)]
pub enum TypeKind {
    /// The type without values.
    Void,
    /// Integers.
    Integer {
        /// Number of bits.
        width: u32,
    },
    /// Pointers, whatever they point to.
    Pointer {
        /// Address space, 0 for the generic one.
        address_space: u32,
    },
    /// Every other type.
    Other,
}

/// How a type is spelled.
#[derive(Clone, Debug)]
pub enum Spelling {
    /// By this text.
    Text(String),
    /// Not at all, for the reason that the message gives.
    Unsupported(String),
}

/// A type, with its spelling in the dialect that is exported.
#[derive(Clone, Debug)]
pub struct Type {
    /// The spelling.
    pub spelling: Spelling,
    /// The kind of type.
    pub kind: TypeKind,
    /// Natural alignment in bytes.
    pub natural_alignment: u64,
}

impl Type {
    /// The characters of the spelling, or of the error message.
    pub open spec fn spelled(self) -> Result<Seq<char>, Seq<char>> {
        match self.spelling {
            Spelling::Text(s) => Ok(s@),
            Spelling::Unsupported(e) => Err(e@),
        }
    }

    /// Whether this is a pointer type.
    pub open spec fn is_pointer(self) -> bool {
        self.kind is Pointer
    }

    /// The address space of a pointer type, 0 for every other type.
    pub open spec fn address_space(self) -> u32 {
        match self.kind {
            TypeKind::Pointer { address_space } => address_space,
            _ => 0,
        }
    }
}

/// An SSA value: the identity by which it is found again, and its type.
#[derive(Clone, Debug)]
pub struct Value {
    /// Identity of the value.
    pub id: u64,
    /// Type of the value.
    pub ty: Type,
}

/// An index of a `getelementptr`.
#[derive(Clone, Copy, Debug, PartialEq, Eq, Structural)]
pub enum GepIndexAttr {
    /// A constant.
    Constant(u32),
    /// The operand at this position.
    OperandIdx(usize),
}

/// Integer comparison predicates.
#[derive(Clone, Copy, Debug, PartialEq, Eq, Structural)]
#[allow(missing_docs)]
pub enum ICmpPredicateAttr {
    EQ,
    NE,
    SLT,
    SLE,
    SGT,
    SGE,
    ULT,
    ULE,
    UGT,
    UGE,
}

impl ICmpPredicateAttr {
    /// The keyword of the predicate.
    pub open spec fn keyword(self) -> Seq<char> {
        match self {
            ICmpPredicateAttr::EQ => "eq"@,
            ICmpPredicateAttr::NE => "ne"@,
            ICmpPredicateAttr::SLT => "slt"@,
            ICmpPredicateAttr::SLE => "sle"@,
            ICmpPredicateAttr::SGT => "sgt"@,
            ICmpPredicateAttr::SGE => "sge"@,
            ICmpPredicateAttr::ULT => "ult"@,
            ICmpPredicateAttr::ULE => "ule"@,
            ICmpPredicateAttr::UGT => "ugt"@,
            ICmpPredicateAttr::UGE => "uge"@,
        }
    }

    /// The keyword of the predicate.
    pub fn as_str(self) -> (r: &'static str)
        ensures
            r@ == self.keyword(),
    {
        match self {
            ICmpPredicateAttr::EQ => "eq",
            ICmpPredicateAttr::NE => "ne",
            ICmpPredicateAttr::SLT => "slt",
            ICmpPredicateAttr::SLE => "sle",
            ICmpPredicateAttr::SGT => "sgt",
            ICmpPredicateAttr::SGE => "sge",
            ICmpPredicateAttr::ULT => "ult",
            ICmpPredicateAttr::ULE => "ule",
            ICmpPredicateAttr::UGT => "ugt",
            ICmpPredicateAttr::UGE => "uge",
        }
    }
}

/// Floating-point comparison predicates.
#[derive(Clone, Copy, Debug, PartialEq, Eq, Structural)]
#[allow(missing_docs)]
pub enum FCmpPredicateAttr {
    False,
    OEQ,
    OGT,
    OGE,
    OLT,
    OLE,
    ONE,
    ORD,
    UEQ,
    UGT,
    UGE,
    ULT,
    ULE,
    UNE,
    UNO,
    True,
}

impl FCmpPredicateAttr {
    /// The keyword of the predicate.
    pub open spec fn keyword(self) -> Seq<char> {
        match self {
            FCmpPredicateAttr::False => "false"@,
            FCmpPredicateAttr::OEQ => "oeq"@,
            FCmpPredicateAttr::OGT => "ogt"@,
            FCmpPredicateAttr::OGE => "oge"@,
            FCmpPredicateAttr::OLT => "olt"@,
            FCmpPredicateAttr::OLE => "ole"@,
            FCmpPredicateAttr::ONE => "one"@,
            FCmpPredicateAttr::ORD => "ord"@,
            FCmpPredicateAttr::UEQ => "ueq"@,
            FCmpPredicateAttr::UGT => "ugt"@,
            FCmpPredicateAttr::UGE => "uge"@,
            FCmpPredicateAttr::ULT => "ult"@,
            FCmpPredicateAttr::ULE => "ule"@,
            FCmpPredicateAttr::UNE => "une"@,
            FCmpPredicateAttr::UNO => "uno"@,
            FCmpPredicateAttr::True => "true"@,
        }
    }

    /// The keyword of the predicate.
    pub fn as_str(self) -> (r: &'static str)
        ensures
            r@ == self.keyword(),
    {
        match self {
            FCmpPredicateAttr::False => "false",
            FCmpPredicateAttr::OEQ => "oeq",
            FCmpPredicateAttr::OGT => "ogt",
            FCmpPredicateAttr::OGE => "oge",
            FCmpPredicateAttr::OLT => "olt",
            FCmpPredicateAttr::OLE => "ole",
            FCmpPredicateAttr::ONE => "one",
            FCmpPredicateAttr::ORD => "ord",
            FCmpPredicateAttr::UEQ => "ueq",
            FCmpPredicateAttr::UGT => "ugt",
            FCmpPredicateAttr::UGE => "uge",
            FCmpPredicateAttr::ULT => "ult",
            FCmpPredicateAttr::ULE => "ule",
            FCmpPredicateAttr::UNE => "une",
            FCmpPredicateAttr::UNO => "uno",
            FCmpPredicateAttr::True => "true",
        }
    }
}

/// What a call calls.
#[derive(Clone, Debug)]
pub enum CallOpCallable {
    /// A function, by its name.
    Direct {
        /// The name in the module.
        name: String,
        /// The name without the prefix of device functions.
        device_name: String,
    },
    /// A function pointer.
    Indirect(Value),
}

/// The value of a constant.
#[derive(Clone, Debug)]
pub enum ConstantAttr {
    /// An integer of `width` bits, in little-endian bytes.
    Integer {
        /// The bytes, the least significant first.
        bytes: Vec<u8>,
        /// Number of bits.
        width: u32,
    },
    /// A half-precision number, by its literal.
    Half {
        /// The literal.
        literal: String,
    },
    /// A single-precision number, by its literal.
    Single {
        /// The literal.
        literal: String,
    },
    /// A double-precision number, by its literal.
    Double {
        /// The literal.
        literal: String,
    },
    /// Any other attribute.
    Other,
}

/// The attributes that the text of an operation depends on.
#[derive(Clone, Debug)]
pub enum OpAttrs {
    /// Nothing: operands and types say it all.
    Plain,
    /// `AllocaOp`.
    Alloca {
        /// Type of the allocated element.
        element_type: Type,
    },
    /// `GetElementPtrOp`.
    GetElementPtr {
        /// Type that the base pointer is indexed by.
        source_type: Type,
        /// The indices.
        indices: Vec<GepIndexAttr>,
        /// Type that the indices lead to, where it can be computed.
        indexed_type: Option<Type>,
    },
    /// `AtomicLoadOp`, `AtomicStoreOp` and `FenceOp`.
    Atomic {
        /// Text of the synchronization scope, with a leading space where it is
        /// not empty.
        syncscope: String,
        /// Keyword of the memory ordering.
        ordering: String,
    },
    /// `AtomicRmwOp`.
    AtomicRmw {
        /// Keyword of the operation.
        kind: String,
        /// Text of the synchronization scope.
        syncscope: String,
        /// Keyword of the memory ordering.
        ordering: String,
    },
    /// `AtomicCmpxchgOp`.
    AtomicCmpxchg {
        /// Text of the synchronization scope.
        syncscope: String,
        /// Keyword of the memory ordering on success.
        success_ordering: String,
        /// Keyword of the memory ordering on failure.
        failure_ordering: String,
    },
    /// `ICmpOp`.
    ICmp(ICmpPredicateAttr),
    /// `FCmpOp`.
    FCmp(FCmpPredicateAttr),
    /// `CallOp`.
    Call {
        /// What is called.
        callee: CallOpCallable,
        /// Result type of the callee.
        result_type: Type,
        /// Whether a direct callee is a convergent intrinsic.
        convergent: bool,
    },
    /// `InlineAsmOp` and `InlineAsmMultiOp`.
    InlineAsm {
        /// Assembly template.
        template: String,
        /// Operand constraints.
        constraints: String,
        /// Whether the assembly is convergent.
        convergent: bool,
    },
    /// `ZExtOp`.
    ZExt {
        /// The boolean under `llvm_nneg_flag`, where there is one.
        nneg: Option<bool>,
    },
    /// `ExtractValueOp` and `InsertValueOp`.
    Indices(Vec<u32>),
    /// `ConstantOp`.
    Constant(ConstantAttr),
}

/// An operation.
#[derive(Clone, Debug)]
pub struct Operation {
    /// Name of the operation's type in the LLVM dialect, such as `LoadOp`.
    pub op_type: String,
    /// Identifier of the operation, such as `llvm.load`.
    pub opid: String,
    /// What the operation takes.
    pub operands: Vec<Value>,
    /// What the operation gives.
    pub results: Vec<Value>,
    /// The blocks that a terminator leads to, by their identities.
    pub successors: Vec<u64>,
    /// Attributes.
    pub attrs: OpAttrs,
}

/// The address space of a pointer type, or 0 for every other type.
pub fn addrspace_of(ty: &Type) -> (r: u32)
    ensures
        r == ty.address_space(),
{
    match ty.kind {
        TypeKind::Pointer { address_space } => address_space,
        _ => 0,
    }
}

} // verus!
