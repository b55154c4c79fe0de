use nvvm_export::config::{NvvmExportConfig, NvvmIrDialect};
use nvvm_export::ir::{
    CallOpCallable, ConstantAttr, FCmpPredicateAttr, GepIndexAttr, ICmpPredicateAttr, OpAttrs,
    Operation, Spelling, Type, TypeKind, Value,
};
use nvvm_export::state::ModuleExportState;
use std::collections::{HashMap, HashSet};

/// An export in progress: its state, the names and labels so far, the output.
struct Export {
    state: ModuleExportState,
    names: HashMap<u64, String>,
    next: usize,
    labels: HashMap<u64, String>,
    out: String,
}

impl Export {
    fn new(dialect: Option<NvvmIrDialect>) -> Self {
        Export {
            state: ModuleExportState::new(dialect),
            names: HashMap::new(),
            next: 0,
            labels: HashMap::new(),
            out: String::new(),
        }
    }

    fn typed() -> Self {
        Self::new(Some(NvvmExportConfig::for_target(Some("sm_86")).dialect()))
    }

    fn opaque() -> Self {
        Self::new(Some(NvvmExportConfig::for_target(Some("sm_100")).dialect()))
    }

    /// An argument of the function, with the next name.
    fn arg(&mut self, id: u64, ty: &Type) -> Value {
        let name = ModuleExportState::next_ssa_name(&mut self.next);
        self.names.insert(id, name);
        value(id, ty)
    }

    fn export(&mut self, op: &Operation) -> Result<(), String> {
        self.state.export_op(op, &mut self.names, &mut self.next, &self.labels, &mut self.out)
    }

    fn export_all(&mut self, ops: &[Operation]) {
        for op in ops {
            self.export(op).expect("export succeeds");
        }
    }
}

fn ty(text: &str, kind: TypeKind, natural_alignment: u64) -> Type {
    Type { spelling: Spelling::Text(text.to_string()), kind, natural_alignment }
}

fn integer(width: u32) -> Type {
    ty(&format!("i{width}"), TypeKind::Integer { width }, u64::from(width / 8))
}

fn void() -> Type {
    ty("void", TypeKind::Void, 1)
}

fn float() -> Type {
    ty("float", TypeKind::Other, 4)
}

/// The erased pointer type of the typed-pointer dialect.
fn erased(address_space: u32) -> Type {
    let text = if address_space == 0 {
        "i8*".to_string()
    } else {
        format!("i8 addrspace({address_space})*")
    };
    ty(&text, TypeKind::Pointer { address_space }, 8)
}

fn ptr(address_space: u32) -> Type {
    let text = if address_space == 0 {
        "ptr".to_string()
    } else {
        format!("ptr addrspace({address_space})")
    };
    ty(&text, TypeKind::Pointer { address_space }, 8)
}

/// A type that cannot be spelled.
fn unspellable() -> Type {
    Type {
        spelling: Spelling::Unsupported("unsupported type".to_string()),
        kind: TypeKind::Other,
        natural_alignment: 1,
    }
}

fn value(id: u64, ty: &Type) -> Value {
    Value { id, ty: ty.clone() }
}

fn op(op_type: &str, operands: Vec<Value>, results: Vec<Value>, attrs: OpAttrs) -> Operation {
    Operation {
        op_type: op_type.to_string(),
        opid: format!("llvm.{}", op_type.to_lowercase()),
        operands,
        results,
        successors: vec![],
        attrs,
    }
}

fn jump(op_type: &str, operands: Vec<Value>, successors: Vec<u64>) -> Operation {
    Operation { successors, ..op(op_type, operands, vec![], OpAttrs::Plain) }
}

fn ret() -> Operation {
    op("ReturnOp", vec![], vec![], OpAttrs::Plain)
}

fn direct(name: &str) -> CallOpCallable {
    CallOpCallable::Direct { name: name.to_string(), device_name: name.to_string() }
}

fn call(name: &str, result_type: Type, operands: Vec<Value>, results: Vec<Value>) -> Operation {
    op(
        "CallOp",
        operands,
        results,
        OpAttrs::Call { callee: direct(name), result_type, convergent: false },
    )
}

fn gep(base: Value, source_type: &Type, result: Value) -> Operation {
    op(
        "GetElementPtrOp",
        vec![base],
        vec![result],
        OpAttrs::GetElementPtr {
            source_type: source_type.clone(),
            indices: vec![GepIndexAttr::Constant(0)],
            indexed_type: Some(source_type.clone()),
        },
    )
}

fn atomic(syncscope: &str, ordering: &str) -> OpAttrs {
    OpAttrs::Atomic { syncscope: syncscope.to_string(), ordering: ordering.to_string() }
}

#[test]
fn typed_nvvm_export_lowers_saturating_intrinsics_to_supported_integer_ops() {
    let mut e = Export::typed();
    let i8_ty = integer(8);
    let lhs = e.arg(0, &i8_ty);
    let rhs = e.arg(1, &i8_ty);
    e.export_all(&[
        call("llvm_sadd_sat_i8", i8_ty.clone(), vec![lhs, rhs], vec![value(2, &i8_ty)]),
        ret(),
    ]);
    let ir = e.out;

    assert!(
        !ir.contains("call i8 @llvm.sadd.sat.i8"),
        "typed NVVM export should not emit unsupported saturation intrinsic calls:\n{ir}"
    );
    assert!(
        ir.contains(" = add i8 %v0, %v1"),
        "saturating add lowering should start with a normal add:\n{ir}"
    );
    assert!(
        ir.contains(" = select i1") && ir.contains("i8 -128") && ir.contains("i8 127"),
        "signed saturation lowering must clamp to signed i8 bounds:\n{ir}"
    );
}

#[test]
fn typed_nvvm_export_casts_erased_pointer_before_typed_load() {
    let mut e = Export::typed();
    let ptr_arg = e.arg(0, &erased(0));
    e.export_all(&[
        op("LoadOp", vec![ptr_arg], vec![value(1, &integer(32))], OpAttrs::Plain),
        ret(),
    ]);
    let ir = e.out;

    assert!(
        ir.contains("%ptrcast0 = bitcast i8* %v0 to i32*"),
        "typed NVVM loads from erased pointer params need a repair bitcast:\n{ir}"
    );
    assert!(
        ir.contains("load i32, i32* %ptrcast0"),
        "typed NVVM load must use the repaired typed pointer:\n{ir}"
    );
}

#[test]
fn typed_nvvm_export_pretypes_late_gep_pointer_uses() {
    let mut e = Export::typed();
    let i32_ty = integer(32);
    let shared = erased(3);
    let (address, erased_address, element) =
        (value(0, &shared), value(1, &shared), value(2, &shared));
    e.labels.insert(1, "use".to_string());
    e.labels.insert(2, "address".to_string());

    // The pointer type of the address computation is known before any block is
    // exported, and so are the names of all values.
    let pointee = e.state.pointer_type_for_pointee(&i32_ty, 3).unwrap();
    e.state.typed_pointer_value_types.insert(element.id, pointee);
    e.names.insert(address.id, "@shared_forward".to_string());
    for id in 1..3 {
        let name = ModuleExportState::next_ssa_name(&mut e.next);
        e.names.insert(id, name);
    }

    e.export_all(&[
        jump("BrOp", vec![], vec![2]),
        op("LoadOp", vec![element.clone()], vec![value(3, &i32_ty)], OpAttrs::Plain),
        ret(),
        op("AddressOfOp", vec![], vec![address.clone()], OpAttrs::Plain),
        op("BitcastOp", vec![address], vec![erased_address.clone()], OpAttrs::Plain),
        gep(erased_address, &i32_ty, element),
        jump("BrOp", vec![], vec![1]),
    ]);
    let ir = e.out;

    assert!(
        ir.contains("load i32, i32 addrspace(3)* %v"),
        "typed NVVM forward uses of GEP results must keep the GEP pointee type:\n{ir}"
    );
    assert!(
        !ir.contains("bitcast i8 addrspace(3)* %v2 to i32 addrspace(3)*"),
        "typed NVVM should not repair a pretyped GEP result from erased i8*:\n{ir}"
    );
}

#[test]
fn typed_nvvm_export_casts_typed_pointer_before_insertvalue() {
    let mut e = Export::typed();
    let i32_ty = integer(32);
    let struct_ty = ty("{ i8, i8* }", TypeKind::Other, 8);
    let ptr_arg = e.arg(0, &erased(0));
    let element = value(1, &erased(0));
    let undef = value(2, &struct_ty);
    e.export_all(&[
        gep(ptr_arg, &i32_ty, element.clone()),
        op("UndefOp", vec![], vec![undef.clone()], OpAttrs::Plain),
        op(
            "InsertValueOp",
            vec![undef, element],
            vec![value(3, &struct_ty)],
            OpAttrs::Indices(vec![1]),
        ),
        ret(),
    ]);
    let ir = e.out;

    assert!(
        ir.contains("= bitcast i32* ") && ir.contains(" to i8*"),
        "insertvalue of a typed pointer needs a repair bitcast to the field type:\n{ir}"
    );
    assert!(
        ir.contains("insertvalue") && ir.contains("i8* %ptrcast"),
        "insertvalue must consume the repaired (bitcast) pointer, not the raw i32*:\n{ir}"
    );
    assert_eq!(
        ir,
        "  %ptrcast0 = bitcast i8* %v0 to i32*\n\
         \x20 %v1 = getelementptr inbounds i32, i32* %ptrcast0, i32 0\n\
         \x20 %ptrcast1 = bitcast i32* %v1 to i8*\n\
         \x20 %v3 = insertvalue { i8, i8* } undef, i8* %ptrcast1, 1\n\
         \x20 ret void\n"
    );
}

#[test]
fn export_addressof_uses_symbol_when_definition_block_prints_later() {
    let mut e = Export::new(None);
    let shared = ptr(3);
    let address = value(0, &shared);
    e.labels.insert(1, "use".to_string());
    e.labels.insert(2, "address".to_string());
    e.names.insert(address.id, "@__shared_mem_20".to_string());

    e.export_all(&[
        jump("BrOp", vec![], vec![2]),
        gep(address.clone(), &integer(32), value(1, &shared)),
        ret(),
        op("AddressOfOp", vec![], vec![address], OpAttrs::Plain),
        jump("BrOp", vec![], vec![1]),
    ]);
    let ir = e.out;

    let gep_line = ir
        .lines()
        .find(|line| line.contains("getelementptr inbounds"))
        .expect("exported GEP line");
    assert!(
        gep_line.contains("@__shared_mem_20"),
        "GEP must use the global symbol, not a stale temporary:\n{ir}"
    );
    assert_no_undefined_temporaries(&ir);
}

/// Asserts that every `%vN` in an operand position has a definition.
fn assert_no_undefined_temporaries(ir: &str) {
    let mut defined: HashSet<String> = HashSet::new();
    for line in ir.lines() {
        let trimmed = line.trim_start();
        if !trimmed.starts_with("%v") {
            continue;
        }
        if let Some((lhs, _)) = trimmed.split_once('=') {
            defined.insert(lhs.trim().to_string());
        }
    }

    let mut referenced: HashSet<String> = HashSet::new();
    for line in ir.lines() {
        let trimmed = line.trim_start();
        let body = match trimmed.find('=') {
            Some(eq) if trimmed.starts_with("%v") => &trimmed[eq + 1..],
            _ => trimmed,
        };
        for tok in body.split(|c: char| !c.is_alphanumeric() && c != '%' && c != '_') {
            if let Some(num) = tok.strip_prefix("%v") {
                if !num.is_empty() && num.chars().all(|c| c.is_ascii_digit()) {
                    referenced.insert(format!("%v{num}"));
                }
            }
        }
    }

    let mut undefined: Vec<&String> = referenced.difference(&defined).collect();
    undefined.sort();
    assert!(
        undefined.is_empty(),
        "IR references undefined SSA temporaries: {undefined:?}\nIR:\n{ir}"
    );
}

#[test]
fn return_lines() {
    let mut e = Export::opaque();
    let x = e.arg(0, &integer(32));
    e.export_all(&[ret(), op("ReturnOp", vec![x], vec![], OpAttrs::Plain)]);
    assert_eq!(e.out, "  ret void\n  ret i32 %v0\n");
}

#[test]
fn unnamed_values_are_undefined() {
    let mut e = Export::opaque();
    e.export(&op("ReturnOp", vec![value(9, &integer(32))], vec![], OpAttrs::Plain)).unwrap();
    assert_eq!(e.out, "  ret i32 undef\n");
}

#[test]
fn an_unspellable_type_stops_the_line() {
    let mut e = Export::opaque();
    let r = e.export(&op("ReturnOp", vec![value(9, &unspellable())], vec![], OpAttrs::Plain));
    assert_eq!(r, Err("unsupported type".to_string()));
    assert_eq!(e.out, "  ret ");
}

#[test]
fn jumps() {
    let mut e = Export::opaque();
    let c = e.arg(0, &integer(1));
    e.labels.insert(1, "then".to_string());
    e.labels.insert(2, "else".to_string());
    e.export_all(&[
        jump("BrOp", vec![], vec![2]),
        jump("CondBrOp", vec![c], vec![1, 2]),
        op("UnreachableOp", vec![], vec![], OpAttrs::Plain),
    ]);
    assert_eq!(
        e.out,
        "  br label %else\n  br i1 %v0, label %then, label %else\n  unreachable\n"
    );
}

#[test]
fn missing_labels_are_errors() {
    let mut e = Export::opaque();
    let c = e.arg(0, &integer(1));
    e.labels.insert(1, "then".to_string());
    assert_eq!(
        e.export(&jump("BrOp", vec![], vec![7])),
        Err("Missing block label".to_string())
    );
    assert_eq!(
        e.export(&jump("CondBrOp", vec![c.clone()], vec![7, 1])),
        Err("Missing true label".to_string())
    );
    assert_eq!(
        e.export(&jump("CondBrOp", vec![c], vec![1, 7])),
        Err("Missing false label".to_string())
    );
    assert_eq!(e.out, "");
}

#[test]
fn opaque_memory_operations() {
    let mut e = Export::opaque();
    let p = e.arg(0, &ptr(0));
    let s = e.arg(1, &ptr(3));
    let x = e.arg(2, &integer(32));
    e.export_all(&[
        op("LoadOp", vec![p.clone()], vec![value(3, &integer(32))], OpAttrs::Plain),
        op("LoadOp", vec![s.clone()], vec![value(4, &integer(64))], OpAttrs::Plain),
        op("StoreOp", vec![x.clone(), s.clone()], vec![], OpAttrs::Plain),
        op(
            "AllocaOp",
            vec![],
            vec![value(5, &ptr(0))],
            OpAttrs::Alloca { element_type: integer(32) },
        ),
        op(
            "GetElementPtrOp",
            vec![s.clone(), x.clone()],
            vec![value(6, &ptr(3))],
            OpAttrs::GetElementPtr {
                source_type: integer(32),
                indices: vec![GepIndexAttr::OperandIdx(1), GepIndexAttr::Constant(2)],
                indexed_type: None,
            },
        ),
    ]);
    assert_eq!(
        e.out,
        "  %v3 = load i32, ptr %v0\n\
         \x20 %v4 = load i64, ptr addrspace(3) %v1\n\
         \x20 store i32 %v2, ptr addrspace(3) %v1\n\
         \x20 %v5 = alloca i32\n\
         \x20 %v6 = getelementptr inbounds i32, ptr addrspace(3) %v1, i32 %v2, i32 2\n"
    );
    assert_eq!(e.state.next_pointer_cast_id, 0);
}

#[test]
fn typed_pointers_keep_the_types_that_they_are_defined_with() {
    let mut e = Export::typed();
    let x = e.arg(0, &integer(32));
    let slot = value(1, &erased(0));
    e.export_all(&[
        op(
            "AllocaOp",
            vec![],
            vec![slot.clone()],
            OpAttrs::Alloca { element_type: integer(32) },
        ),
        op("StoreOp", vec![x, slot.clone()], vec![], OpAttrs::Plain),
        op("LoadOp", vec![slot.clone()], vec![value(2, &integer(32))], OpAttrs::Plain),
        op("LoadOp", vec![slot], vec![value(3, &float())], OpAttrs::Plain),
    ]);
    assert_eq!(
        e.out,
        "  %v1 = alloca i32\n\
         \x20 store i32 %v0, i32* %v1\n\
         \x20 %v2 = load i32, i32* %v1\n\
         \x20 %ptrcast0 = bitcast i32* %v1 to float*\n\
         \x20 %v3 = load float, float* %ptrcast0\n"
    );
    assert_eq!(e.state.next_pointer_cast_id, 1);
}

#[test]
fn an_address_computation_leads_to_its_indexed_type() {
    let mut e = Export::typed();
    let base = e.arg(0, &erased(3));
    let field = value(1, &erased(3));
    let pair = ty("{ i32, float }", TypeKind::Other, 4);
    e.export_all(&[
        op(
            "GetElementPtrOp",
            vec![base],
            vec![field.clone()],
            OpAttrs::GetElementPtr {
                source_type: pair,
                indices: vec![GepIndexAttr::Constant(0), GepIndexAttr::Constant(1)],
                indexed_type: Some(float()),
            },
        ),
        op("LoadOp", vec![field], vec![value(2, &float())], OpAttrs::Plain),
    ]);
    assert_eq!(
        e.out,
        "  %ptrcast0 = bitcast i8 addrspace(3)* %v0 to { i32, float } addrspace(3)*\n\
         \x20 %v1 = getelementptr inbounds { i32, float }, { i32, float } addrspace(3)* %ptrcast0, \
         i32 0, i32 1\n\
         \x20 %v2 = load float, float addrspace(3)* %v1\n"
    );
}

#[test]
fn a_pointer_operand_in_another_address_space_is_cast_there() {
    let mut e = Export::typed();
    let p = e.arg(0, &erased(1));
    let name =
        e.state.pointer_operand(&p, &integer(32), 0, &e.names, &mut e.out).expect("can be cast");
    assert_eq!(name, "%ptrcast0");
    assert_eq!(e.out, "  %ptrcast0 = addrspacecast i8 addrspace(1)* %v0 to i32*\n");
}

#[test]
fn a_pointee_that_cannot_be_spelled_stops_a_typed_load() {
    let mut e = Export::typed();
    let p = e.arg(0, &erased(0));
    let r = e.export(&op("LoadOp", vec![p], vec![value(1, &unspellable())], OpAttrs::Plain));
    assert_eq!(r, Err("unsupported type".to_string()));
    assert_eq!(e.out, "");
}

#[test]
fn atomics() {
    let mut e = Export::opaque();
    let p = e.arg(0, &ptr(1));
    let x = e.arg(1, &integer(32));
    let y = e.arg(2, &integer(32));
    e.export_all(&[
        op(
            "AtomicLoadOp",
            vec![p.clone()],
            vec![value(3, &integer(32))],
            atomic(" syncscope(\"device\")", "acquire"),
        ),
        op("AtomicStoreOp", vec![x.clone(), p.clone()], vec![], atomic("", "release")),
        op(
            "AtomicRmwOp",
            vec![p.clone(), x.clone()],
            vec![value(4, &integer(32))],
            OpAttrs::AtomicRmw {
                kind: "add".to_string(),
                syncscope: " syncscope(\"block\")".to_string(),
                ordering: "monotonic".to_string(),
            },
        ),
        op(
            "AtomicCmpxchgOp",
            vec![p, x, y],
            vec![value(5, &integer(32))],
            OpAttrs::AtomicCmpxchg {
                syncscope: "".to_string(),
                success_ordering: "acq_rel".to_string(),
                failure_ordering: "acquire".to_string(),
            },
        ),
        op("FenceOp", vec![], vec![], atomic(" syncscope(\"device\")", "seq_cst")),
    ]);
    assert_eq!(
        e.out,
        "  %v3 = load atomic i32, ptr addrspace(1) %v0 syncscope(\"device\") acquire, align 4\n\
         \x20 store atomic i32 %v1, ptr addrspace(1) %v0 release, align 4\n\
         \x20 %v4 = atomicrmw add ptr addrspace(1) %v0, i32 %v1 syncscope(\"block\") monotonic\n\
         \x20 %v5.cx = cmpxchg ptr addrspace(1) %v0, i32 %v1, i32 %v2 acq_rel acquire\n\
         \x20 %v5 = extractvalue { i32, i1 } %v5.cx, 0\n\
         \x20 fence syncscope(\"device\") seq_cst\n"
    );
}

#[test]
fn typed_atomics_cast_their_pointer_first() {
    let mut e = Export::typed();
    let p = e.arg(0, &erased(0));
    let x = e.arg(1, &integer(64));
    e.export_all(&[op(
        "AtomicRmwOp",
        vec![p, x],
        vec![value(2, &integer(64))],
        OpAttrs::AtomicRmw {
            kind: "xchg".to_string(),
            syncscope: "".to_string(),
            ordering: "seq_cst".to_string(),
        },
    )]);
    assert_eq!(
        e.out,
        "  %ptrcast0 = bitcast i8* %v0 to i64*\n\
         \x20 %v2 = atomicrmw xchg i64* %ptrcast0, i64 %v1 seq_cst\n"
    );
}

#[test]
fn operations_on_two_values() {
    let mnemonics = [
        ("AddOp", "add"),
        ("SubOp", "sub"),
        ("MulOp", "mul"),
        ("SDivOp", "sdiv"),
        ("UDivOp", "udiv"),
        ("SRemOp", "srem"),
        ("URemOp", "urem"),
        ("ShlOp", "shl"),
        ("LShrOp", "lshr"),
        ("AShrOp", "ashr"),
        ("AndOp", "and"),
        ("OrOp", "or"),
        ("XorOp", "xor"),
        ("FAddOp", "fadd"),
        ("FSubOp", "fsub"),
        ("FMulOp", "fmul"),
        ("FDivOp", "fdiv"),
        ("FRemOp", "frem"),
    ];
    for (op_type, mnemonic) in mnemonics {
        let mut e = Export::opaque();
        let x = e.arg(0, &integer(32));
        let y = e.arg(1, &integer(32));
        e.export_all(&[op(op_type, vec![x, y], vec![value(2, &integer(32))], OpAttrs::Plain)]);
        assert_eq!(e.out, format!("  %v2 = {mnemonic} i32 %v0, %v1\n"));
    }
}

#[test]
fn negation_subtracts_from_negative_zero_with_typed_pointers() {
    for (mut e, line) in [
        (Export::typed(), "  %v1 = fsub float -0.000000e+00, %v0\n"),
        (Export::opaque(), "  %v1 = fneg float %v0\n"),
        (Export::new(None), "  %v1 = fneg float %v0\n"),
    ] {
        let x = e.arg(0, &float());
        e.export_all(&[op("FNegOp", vec![x], vec![value(1, &float())], OpAttrs::Plain)]);
        assert_eq!(e.out, line);
    }
}

#[test]
fn integer_comparisons() {
    let predicates = [
        (ICmpPredicateAttr::EQ, "eq"),
        (ICmpPredicateAttr::NE, "ne"),
        (ICmpPredicateAttr::SLT, "slt"),
        (ICmpPredicateAttr::SLE, "sle"),
        (ICmpPredicateAttr::SGT, "sgt"),
        (ICmpPredicateAttr::SGE, "sge"),
        (ICmpPredicateAttr::ULT, "ult"),
        (ICmpPredicateAttr::ULE, "ule"),
        (ICmpPredicateAttr::UGT, "ugt"),
        (ICmpPredicateAttr::UGE, "uge"),
    ];
    for (predicate, keyword) in predicates {
        let mut e = Export::opaque();
        let x = e.arg(0, &integer(16));
        let y = e.arg(1, &integer(16));
        e.export_all(&[op(
            "ICmpOp",
            vec![x, y],
            vec![value(2, &integer(1))],
            OpAttrs::ICmp(predicate),
        )]);
        assert_eq!(e.out, format!("  %v2 = icmp {keyword} i16 %v0, %v1\n"));
    }
}

#[test]
fn float_comparisons() {
    let predicates = [
        (FCmpPredicateAttr::False, "false"),
        (FCmpPredicateAttr::OEQ, "oeq"),
        (FCmpPredicateAttr::OGT, "ogt"),
        (FCmpPredicateAttr::OGE, "oge"),
        (FCmpPredicateAttr::OLT, "olt"),
        (FCmpPredicateAttr::OLE, "ole"),
        (FCmpPredicateAttr::ONE, "one"),
        (FCmpPredicateAttr::ORD, "ord"),
        (FCmpPredicateAttr::UEQ, "ueq"),
        (FCmpPredicateAttr::UGT, "ugt"),
        (FCmpPredicateAttr::UGE, "uge"),
        (FCmpPredicateAttr::ULT, "ult"),
        (FCmpPredicateAttr::ULE, "ule"),
        (FCmpPredicateAttr::UNE, "une"),
        (FCmpPredicateAttr::UNO, "uno"),
        (FCmpPredicateAttr::True, "true"),
    ];
    for (predicate, keyword) in predicates {
        let mut e = Export::opaque();
        let x = e.arg(0, &float());
        let y = e.arg(1, &float());
        e.export_all(&[op(
            "FCmpOp",
            vec![x, y],
            vec![value(2, &integer(1))],
            OpAttrs::FCmp(predicate),
        )]);
        assert_eq!(e.out, format!("  %v2 = fcmp {keyword} float %v0, %v1\n"));
    }
}

#[test]
fn choices() {
    let mut e = Export::opaque();
    let c = e.arg(0, &integer(1));
    let x = e.arg(1, &integer(32));
    let y = e.arg(2, &integer(32));
    e.export_all(&[op("SelectOp", vec![c, x, y], vec![value(3, &integer(32))], OpAttrs::Plain)]);
    assert_eq!(e.out, "  %v3 = select i1 %v0, i32 %v1, i32 %v2\n");
}

#[test]
fn casts() {
    let mnemonics = [
        ("BitcastOp", "bitcast"),
        ("AddrSpaceCastOp", "addrspacecast"),
        ("SExtOp", "sext"),
        ("TruncOp", "trunc"),
        ("PtrToIntOp", "ptrtoint"),
        ("IntToPtrOp", "inttoptr"),
        ("UIToFPOp", "uitofp"),
        ("SIToFPOp", "sitofp"),
        ("FPToUIOp", "fptoui"),
        ("FPToSIOp", "fptosi"),
        ("FPExtOp", "fpext"),
        ("FPTruncOp", "fptrunc"),
    ];
    for (op_type, mnemonic) in mnemonics {
        let mut e = Export::opaque();
        let x = e.arg(0, &integer(32));
        e.export_all(&[op(op_type, vec![x], vec![value(1, &integer(64))], OpAttrs::Plain)]);
        assert_eq!(e.out, format!("  %v1 = {mnemonic} i32 %v0 to i64\n"));
    }
}

#[test]
fn typed_casts_start_from_the_defined_type_and_erase() {
    let mut e = Export::typed();
    let slot = value(0, &erased(0));
    let erased_slot = value(1, &erased(0));
    e.export_all(&[
        op(
            "AllocaOp",
            vec![],
            vec![slot.clone()],
            OpAttrs::Alloca { element_type: float() },
        ),
        op("BitcastOp", vec![slot], vec![erased_slot.clone()], OpAttrs::Plain),
        op("LoadOp", vec![erased_slot.clone()], vec![value(2, &float())], OpAttrs::Plain),
        op("PtrToIntOp", vec![erased_slot], vec![value(3, &integer(64))], OpAttrs::Plain),
    ]);
    assert_eq!(
        e.out,
        "  %v0 = alloca float\n\
         \x20 %v1 = bitcast float* %v0 to i8*\n\
         \x20 %ptrcast0 = bitcast i8* %v1 to float*\n\
         \x20 %v2 = load float, float* %ptrcast0\n\
         \x20 %v3 = ptrtoint i8* %v1 to i64\n"
    );
    assert_eq!(e.state.typed_pointer_value_types.get(&1).map(String::as_str), Some("i8*"));
}

#[test]
fn zero_extensions() {
    let mut e = Export::opaque();
    let x = e.arg(0, &integer(8));
    for attrs in [
        OpAttrs::ZExt { nneg: Some(true) },
        OpAttrs::ZExt { nneg: Some(false) },
        OpAttrs::ZExt { nneg: None },
    ] {
        e.names.remove(&1);
        e.export(&op("ZExtOp", vec![x.clone()], vec![value(1, &integer(32))], attrs)).unwrap();
    }
    assert_eq!(
        e.out,
        "  %v1 = zext nneg i8 %v0 to i32\n\
         \x20 %v2 = zext i8 %v0 to i32\n\
         \x20 %v3 = zext i8 %v0 to i32\n"
    );
}

#[test]
fn aggregates() {
    let pair = ty("{ i32, float }", TypeKind::Other, 4);
    let mut e = Export::opaque();
    let agg = e.arg(0, &pair);
    let x = e.arg(1, &integer(32));
    e.export_all(&[
        op(
            "ExtractValueOp",
            vec![agg.clone()],
            vec![value(2, &float())],
            OpAttrs::Indices(vec![1, 10]),
        ),
        op(
            "InsertValueOp",
            vec![agg, x],
            vec![value(3, &pair)],
            OpAttrs::Indices(vec![0]),
        ),
    ]);
    assert_eq!(
        e.out,
        "  %v2 = extractvalue { i32, float } %v0, 1, 10\n\
         \x20 %v3 = insertvalue { i32, float } %v0, i32 %v1, 0\n"
    );
}

#[test]
fn calls() {
    let mut e = Export::opaque();
    let x = e.arg(0, &integer(32));
    let f = e.arg(1, &ptr(0));
    e.export_all(&[
        call("helper", void(), vec![], vec![]),
        call("llvm_nvvm_sqrt_f", float(), vec![x.clone()], vec![value(2, &float())]),
        op(
            "CallOp",
            vec![x.clone(), x.clone()],
            vec![value(3, &integer(32))],
            OpAttrs::Call {
                callee: CallOpCallable::Direct {
                    name: "device_prefix_add".to_string(),
                    device_name: "add".to_string(),
                },
                result_type: integer(32),
                convergent: false,
            },
        ),
        op(
            "CallOp",
            vec![x],
            vec![],
            OpAttrs::Call {
                callee: CallOpCallable::Indirect(f),
                result_type: void(),
                convergent: true,
            },
        ),
    ]);
    assert_eq!(
        e.out,
        "  call void @helper()\n\
         \x20 %v2 = call float @llvm.nvvm.sqrt.f(i32 %v0)\n\
         \x20 %v3 = call i32 @add(i32 %v0, i32 %v0)\n\
         \x20 call void %v1(i32 %v0)\n"
    );
    assert!(!e.state.convergent_used);
}

#[test]
fn convergent_calls_mark_the_module() {
    let mut e = Export::opaque();
    e.export_all(&[op(
        "CallOp",
        vec![],
        vec![],
        OpAttrs::Call {
            callee: direct("llvm_nvvm_barrier0"),
            result_type: void(),
            convergent: true,
        },
    )]);
    assert_eq!(e.out, "  call void @llvm.nvvm.barrier0() #0\n");
    assert!(e.state.convergent_used);
    e.export_all(&[ret()]);
    assert!(e.state.convergent_used);
}

#[test]
fn an_argument_that_cannot_be_spelled_stops_a_convergent_call() {
    let mut e = Export::opaque();
    let x = e.arg(0, &integer(32));
    let r = e.export(&op(
        "CallOp",
        vec![x.clone(), value(9, &unspellable()), x],
        vec![],
        OpAttrs::Call { callee: direct("f"), result_type: void(), convergent: true },
    ));
    assert_eq!(r, Err("unsupported type".to_string()));
    assert_eq!(e.out, "  call void @f(i32 %v0, ");
    assert!(!e.state.convergent_used);
}

#[test]
fn inline_assembly() {
    let attrs = |convergent| OpAttrs::InlineAsm {
        template: "add.u32 $0, $1, $2;".to_string(),
        constraints: "=r,r,r".to_string(),
        convergent,
    };
    let mut e = Export::opaque();
    let x = e.arg(0, &integer(32));
    e.export_all(&[
        op(
            "InlineAsmOp",
            vec![x.clone(), x.clone()],
            vec![value(1, &integer(32))],
            attrs(false),
        ),
        op("InlineAsmOp", vec![], vec![], attrs(true)),
        op("InlineAsmMultiOp", vec![x.clone()], vec![], attrs(false)),
        op(
            "InlineAsmMultiOp",
            vec![x],
            vec![value(2, &integer(32)), value(3, &float())],
            attrs(true),
        ),
    ]);
    assert_eq!(
        e.out,
        "  %v1 = call i32 asm sideeffect \"add.u32 $0, $1, $2;\", \"=r,r,r\"(i32 %v0, i32 %v0)\n\
         \x20 call void asm sideeffect \"add.u32 $0, $1, $2;\", \"=r,r,r\"() #0\n\
         \x20 call void asm sideeffect \"add.u32 $0, $1, $2;\", \"=r,r,r\"(i32 %v0)\n\
         \x20 %v2_struct = call {i32, float} asm sideeffect \"add.u32 $0, $1, $2;\", \
         \"=r,r,r\"(i32 %v0) #0\n\
         \x20 %v2 = extractvalue {i32, float} %v2_struct, 0\n\
         \x20 %v3 = extractvalue {i32, float} %v2_struct, 1\n"
    );
    assert_no_undefined_temporaries(&e.out.replace("%v0", "arg").replace("%v2_struct", "s"));
}

#[test]
fn a_result_type_that_cannot_be_spelled_stops_assembly_before_it_begins() {
    let mut e = Export::opaque();
    let r = e.export(&op(
        "InlineAsmMultiOp",
        vec![],
        vec![value(0, &integer(32)), value(1, &unspellable()), value(2, &integer(32))],
        OpAttrs::InlineAsm {
            template: "nop;".to_string(),
            constraints: "".to_string(),
            convergent: true,
        },
    ));
    assert_eq!(r, Err("unsupported type".to_string()));
    assert_eq!(e.out, "");
}

#[test]
fn constants_are_named_by_their_literals() {
    let of_bytes = |bytes: &[u8], width| ConstantAttr::Integer { bytes: bytes.to_vec(), width };
    let text = |literal: &str| literal.to_string();
    let cases = [
        (of_bytes(&[0], 8), "0"),
        (of_bytes(&[0xff, 0xff, 0xff, 0xff], 32), "4294967295"),
        (of_bytes(&(1u64 << 46).to_le_bytes(), 64), "70368744177664"),
        (of_bytes(&[0x34, 0x12], 8), "52"),
        (of_bytes(&[7], 64), "7"),
        (of_bytes(&u128::MAX.to_le_bytes(), 128), "340282366920938463463374607431768211455"),
        (of_bytes(&[1], 1), "1"),
        (of_bytes(&[2], 1), "0"),
        (ConstantAttr::Half { literal: text("0xH3C00") }, "0xH3C00"),
        (ConstantAttr::Single { literal: text("0x3FF0000000000000") }, "0x3FF0000000000000"),
        (ConstantAttr::Double { literal: text("0x4000000000000000") }, "0x4000000000000000"),
        (ConstantAttr::Other, "0"),
    ];
    for (attr, literal) in cases {
        assert_eq!(nvvm_export::constants::constant_literal(&attr), literal);
        let mut e = Export::opaque();
        let c = value(0, &integer(32));
        e.export_all(&[
            op("ConstantOp", vec![], vec![c.clone()], OpAttrs::Constant(attr)),
            op("ReturnOp", vec![c], vec![], OpAttrs::Plain),
        ]);
        assert_eq!(e.out, format!("  ret i32 {literal}\n"));
    }
}

#[test]
fn virtual_operations_print_nothing() {
    let mut e = Export::opaque();
    e.names.insert(2, "@table".to_string());
    e.export_all(&[
        op("UndefOp", vec![], vec![value(0, &integer(32))], OpAttrs::Plain),
        op(
            "ConstantOp",
            vec![],
            vec![value(1, &integer(32))],
            OpAttrs::Constant(ConstantAttr::Integer { bytes: vec![5], width: 32 }),
        ),
        op("AddressOfOp", vec![], vec![value(2, &ptr(0))], OpAttrs::Plain),
    ]);
    assert_eq!(e.out, "");
    assert_eq!(e.names[&0], "undef");
    assert_eq!(e.names[&1], "5");
    assert_eq!(e.names[&2], "@table");
}

#[test]
fn unknown_operations_leave_a_comment() {
    let mut e = Export::opaque();
    e.export_all(&[op("SwitchOp", vec![], vec![], OpAttrs::Plain)]);
    assert_eq!(e.out, "  ; Unknown op: llvm.switchop\n");
}

#[test]
fn results_are_numbered_unless_they_have_a_name() {
    let mut e = Export::opaque();
    let x = e.arg(0, &integer(32));
    e.names.insert(2, "%early".to_string());
    for id in [1, 2, 3] {
        e.export(&op(
            "AddOp",
            vec![x.clone(), x.clone()],
            vec![value(id, &integer(32))],
            OpAttrs::Plain,
        ))
        .unwrap();
    }
    assert_eq!(
        e.out,
        "  %v1 = add i32 %v0, %v0\n  %early = add i32 %v0, %v0\n  %v2 = add i32 %v0, %v0\n"
    );
    assert_eq!(e.next, 3);
    let names: HashSet<&String> = e.names.values().collect();
    assert_eq!(names.len(), e.names.len());
}

#[test]
fn the_output_is_only_ever_appended_to() {
    let mut e = Export::typed();
    e.out.push_str("define void @f(i8* %v0) {\n");
    let p = e.arg(0, &erased(0));
    let ops = [
        op("LoadOp", vec![p.clone()], vec![value(1, &integer(32))], OpAttrs::Plain),
        op("LoadOp", vec![p], vec![value(2, &unspellable())], OpAttrs::Plain),
        ret(),
    ];
    for o in &ops {
        let before = e.out.clone();
        let casts = e.state.next_pointer_cast_id;
        let r = e.export(o);
        assert!(e.out.starts_with(&before));
        assert!(e.state.next_pointer_cast_id >= casts);
        if r.is_ok() {
            assert!(e.out.ends_with('\n'));
        }
    }
}

#[test]
fn incomplete_operations_cannot_be_exported() {
    let mut e = Export::typed();
    let x = e.arg(0, &integer(32));
    let res = || vec![value(1, &integer(32))];
    let ready = |e: &Export, o: &Operation| e.state.can_export(o, &e.names, e.next, &e.labels);

    assert!(ready(&e, &op("AddOp", vec![x.clone(), x.clone()], res(), OpAttrs::Plain)));
    assert!(!ready(&e, &op("AddOp", vec![x.clone()], res(), OpAttrs::Plain)));
    assert!(!ready(&e, &op("AddOp", vec![x.clone(), x.clone()], vec![], OpAttrs::Plain)));
    assert!(!ready(&e, &op("ICmpOp", vec![x.clone(), x.clone()], res(), OpAttrs::Plain)));
    assert!(!ready(&e, &jump("BrOp", vec![], vec![])));
    assert!(ready(&e, &op("SwitchOp", vec![], vec![], OpAttrs::Plain)));
    assert!(ready(&e, &call("f", void(), vec![], vec![])));
    assert!(!ready(&e, &call("f", integer(32), vec![], vec![])));

    let at = |k| OpAttrs::GetElementPtr {
        source_type: integer(32),
        indices: vec![GepIndexAttr::Constant(9), GepIndexAttr::OperandIdx(k)],
        indexed_type: None,
    };
    let base = || vec![value(7, &erased(0)), x.clone()];
    assert!(ready(&e, &op("GetElementPtrOp", base(), res(), at(1))));
    assert!(!ready(&e, &op("GetElementPtrOp", base(), res(), at(2))));

    let address = op("AddressOfOp", vec![], vec![value(8, &erased(0))], OpAttrs::Plain);
    assert!(!ready(&e, &address));
    e.names.insert(8, "%v8".to_string());
    assert!(!ready(&e, &address));
    e.names.insert(8, "@table".to_string());
    assert!(ready(&e, &address));
}

#[test]
fn numbers_of_temporaries_can_run_out() {
    let mut e = Export::typed();
    let x = e.arg(0, &integer(8));
    let add = op(
        "AddOp",
        vec![x.clone(), x.clone()],
        vec![value(1, &integer(8))],
        OpAttrs::Plain,
    );
    let sat = call(
        "llvm_usub_sat_i8",
        integer(8),
        vec![x.clone(), x],
        vec![value(1, &integer(8))],
    );
    assert!(e.state.can_export(&add, &e.names, usize::MAX - 1, &e.labels));
    assert!(!e.state.can_export(&add, &e.names, usize::MAX, &e.labels));
    assert!(e.state.can_export(&sat, &e.names, usize::MAX - 3, &e.labels));
    assert!(!e.state.can_export(&sat, &e.names, usize::MAX - 2, &e.labels));
    e.names.insert(1, "%named".to_string());
    assert!(e.state.can_export(&add, &e.names, usize::MAX, &e.labels));
    assert!(e.state.can_export(&sat, &e.names, usize::MAX - 2, &e.labels));
}

#[test]
fn numbers_of_pointer_casts_can_run_out() {
    let mut e = Export::typed();
    let x = e.arg(0, &integer(32));
    let p = e.arg(1, &erased(0));
    let load = |to: Type| op("LoadOp", vec![p.clone()], vec![value(2, &to)], OpAttrs::Plain);
    let add = op("AddOp", vec![x.clone(), x], vec![value(2, &integer(32))], OpAttrs::Plain);
    let insert = op(
        "InsertValueOp",
        vec![value(7, &float()), p.clone()],
        vec![value(2, &float())],
        OpAttrs::Indices(vec![0]),
    );
    e.state.next_pointer_cast_id = usize::MAX;
    let ready = |e: &Export, o: &Operation| e.state.can_export(o, &e.names, e.next, &e.labels);
    assert!(ready(&e, &add));
    assert!(!ready(&e, &load(integer(32))));
    assert!(ready(&e, &load(integer(8))));
    assert!(ready(&e, &load(unspellable())));
    assert!(ready(&e, &insert));
    e.state.typed_pointer_value_types.insert(p.id, "i32*".to_string());
    assert!(ready(&e, &load(integer(32))));
    assert!(!ready(&e, &insert));
    e.export_all(&[load(integer(32))]);
    assert_eq!(e.out, "  %v2 = load i32, i32* %v1\n");
    e.state.nvvm_ir_dialect = None;
    assert!(ready(&e, &load(integer(8))));
}

#[test]
fn errors_come_before_what_is_missing_behind_them() {
    let mut e = Export::opaque();
    let base = e.arg(0, &ptr(0));
    e.labels.insert(1, "next".to_string());
    let ready = |e: &Export, o: &Operation| e.state.can_export(o, &e.names, e.next, &e.labels);

    let no_label = jump("CondBrOp", vec![], vec![1, 7]);
    assert!(ready(&e, &no_label));
    assert_eq!(e.export(&no_label), Err("Missing false label".to_string()));
    assert!(!ready(&e, &jump("CondBrOp", vec![], vec![1, 1])));

    let at = |source_type: Type, index: Type| op(
        "GetElementPtrOp",
        vec![base.clone(), value(8, &index)],
        vec![value(1, &ptr(0))],
        OpAttrs::GetElementPtr {
            source_type,
            indices: vec![GepIndexAttr::OperandIdx(1), GepIndexAttr::OperandIdx(9)],
            indexed_type: None,
        },
    );
    assert!(!ready(&e, &at(integer(32), integer(32))));
    for stopped in [at(unspellable(), integer(32)), at(integer(32), unspellable())] {
        assert!(ready(&e, &stopped));
        assert_eq!(e.export(&stopped), Err("unsupported type".to_string()));
    }

    let part = |ty: Type| op(
        "ExtractValueOp",
        vec![value(9, &ty)],
        vec![value(2, &float())],
        OpAttrs::Plain,
    );
    assert!(!ready(&e, &part(float())));
    assert!(ready(&e, &part(unspellable())));
    assert_eq!(e.export(&part(unspellable())), Err("unsupported type".to_string()));

    let assembly = op(
        "InlineAsmMultiOp",
        vec![],
        vec![value(3, &unspellable())],
        OpAttrs::InlineAsm {
            template: "nop;".to_string(),
            constraints: "".to_string(),
            convergent: false,
        },
    );
    let names = HashMap::new();
    let r = e.state.emit_inline_asm_multi(&assembly, &names, &mut e.out);
    assert_eq!(r, Err("unsupported type".to_string()));
}

#[test]
fn no_temporary_is_dangling_in_a_list_of_operations() {
    let mut e = Export::typed();
    let i8_ty = integer(8);
    e.labels.insert(1, "next".to_string());
    e.names.insert(0, "@table".to_string());
    // The sum is used before it is defined, and was named beforehand.
    e.names.insert(5, "%v40".to_string());
    let v = |id| value(id, &i8_ty);
    let element = value(2, &erased(0));
    e.export_all(&[
        op("AddressOfOp", vec![], vec![value(0, &erased(0))], OpAttrs::Plain),
        op("UndefOp", vec![], vec![v(1)], OpAttrs::Plain),
        gep(value(0, &erased(0)), &i8_ty, element.clone()),
        op("LoadOp", vec![element], vec![v(3)], OpAttrs::Plain),
        op("XorOp", vec![v(5), v(1)], vec![v(4)], OpAttrs::Plain),
        call("llvm_sadd_sat_i8", i8_ty.clone(), vec![v(3), v(4)], vec![v(6)]),
        op("AddOp", vec![v(6), v(3)], vec![v(5)], OpAttrs::Plain),
        op("ReturnOp", vec![v(5)], vec![], OpAttrs::Plain),
    ]);
    assert_no_undefined_temporaries(&e.out);
    assert!(e.out.contains("xor i8 %v40, undef"));
    assert!(e.out.contains("  %v40 = add i8 "));
}

#[test]
fn callee_names() {
    let called = |name: &str, device: &str| {
        nvvm_export::calls::callee_name_of(&name.to_string(), &device.to_string())
    };
    assert_eq!(called("llvm_nvvm_barrier0", "x"), "llvm.nvvm.barrier0");
    assert_eq!(called("device_prefix_add", "add"), "add");
    assert_eq!(called("llvm.sqrt", "llvm.sqrt"), "llvm.sqrt");
}
