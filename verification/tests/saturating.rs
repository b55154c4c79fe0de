use nvvm_export::config::NvvmIrDialect;
use nvvm_export::ir::{CallOpCallable, OpAttrs, Operation, Spelling, Type, TypeKind, Value};
use nvvm_export::llvm_op::LlvmOp;
use nvvm_export::saturating::{signed_integer_limits, SaturatingIntrinsic};
use nvvm_export::state::ModuleExportState;
use std::collections::HashMap;

fn integer(width: u32) -> Type {
    Type {
        spelling: Spelling::Text(format!("i{width}")),
        kind: TypeKind::Integer { width },
        natural_alignment: 1,
    }
}

fn call(name: &str, ty: &Type, operands: u64, results: u64) -> Operation {
    Operation {
        op_type: "CallOp".to_string(),
        opid: "llvm.call".to_string(),
        operands: (0..operands).map(|id| Value { id, ty: ty.clone() }).collect(),
        results: (100..100 + results).map(|id| Value { id, ty: ty.clone() }).collect(),
        successors: vec![],
        attrs: OpAttrs::Call {
            callee: CallOpCallable::Direct {
                name: name.to_string(),
                device_name: name.to_string(),
            },
            result_type: ty.clone(),
            convergent: false,
        },
    }
}

/// Exports a call with the operands `%a` and `%b`; the result is `%v0`.
fn lower(
    dialect: Option<NvvmIrDialect>,
    op: &Operation,
) -> (Result<(), String>, String, usize) {
    let mut state = ModuleExportState::new(dialect);
    let mut names = HashMap::from([(0, "%a".to_string()), (1, "%b".to_string())]);
    let mut next = 0;
    let mut out = String::new();
    let r = state.export_op(op, &mut names, &mut next, &HashMap::new(), &mut out);
    (r, out, next)
}

const TYPED: Option<NvvmIrDialect> = Some(NvvmIrDialect::TypedPointers);
const OPAQUE: Option<NvvmIrDialect> = Some(NvvmIrDialect::OpaquePointers);

#[test]
fn names_of_saturating_intrinsics() {
    let from = SaturatingIntrinsic::from_name;
    assert_eq!(from("llvm.sadd.sat.i8"), Some(SaturatingIntrinsic::SignedAdd));
    assert_eq!(from("llvm.ssub.sat.i16"), Some(SaturatingIntrinsic::SignedSub));
    assert_eq!(from("llvm.uadd.sat.i32"), Some(SaturatingIntrinsic::UnsignedAdd));
    assert_eq!(from("llvm.usub.sat.i128"), Some(SaturatingIntrinsic::UnsignedSub));
    assert_eq!(from("llvm.sadd.sat.i"), None);
    assert_eq!(from("llvm.sadd.sat.v4i8"), None);
    assert_eq!(from("llvm.sadd.sat.i8x"), None);
    assert_eq!(from("llvm.sadd.sat.i\u{0663}"), None);
    assert_eq!(from("llvm.smul.sat.i8"), None);
    assert_eq!(from("xllvm.sadd.sat.i8"), None);
    assert_eq!(from(""), None);
    assert_eq!(SaturatingIntrinsic::SignedAdd.arithmetic_opcode(), "add");
    assert_eq!(SaturatingIntrinsic::UnsignedAdd.arithmetic_opcode(), "add");
    assert_eq!(SaturatingIntrinsic::SignedSub.arithmetic_opcode(), "sub");
    assert_eq!(SaturatingIntrinsic::UnsignedSub.arithmetic_opcode(), "sub");
}

#[test]
fn limits_of_signed_integers() {
    for width in 1..128 {
        let min = format!("-{}", 1_i128 << (width - 1));
        let max = ((1_i128 << (width - 1)) - 1).to_string();
        assert_eq!(signed_integer_limits(width), Ok((min, max)));
    }
    assert_eq!(
        signed_integer_limits(128),
        Ok((i128::MIN.to_string(), i128::MAX.to_string()))
    );
    assert_eq!(signed_integer_limits(1), Ok(("-1".to_string(), "0".to_string())));
    for width in [0, 129, u32::MAX] {
        assert_eq!(
            signed_integer_limits(width),
            Err(format!("cannot lower signed saturating intrinsic for i{width}"))
        );
    }
}

#[test]
fn signed_lowering() {
    let (r, out, next) = lower(TYPED, &call("llvm_ssub_sat_i16", &integer(16), 2, 1));
    assert_eq!(r, Ok(()));
    assert_eq!(next, 9);
    assert_eq!(
        out,
        "  %v1 = sub i16 %a, %b\n\
         \x20 %v2 = icmp slt i16 %a, 0\n\
         \x20 %v3 = icmp slt i16 %b, 0\n\
         \x20 %v4 = icmp slt i16 %v1, 0\n\
         \x20 %v5 = icmp ne i1 %v2, %v3\n\
         \x20 %v6 = icmp ne i1 %v2, %v4\n\
         \x20 %v7 = and i1 %v5, %v6\n\
         \x20 %v8 = select i1 %v2, i16 -32768, i16 32767\n\
         \x20 %v0 = select i1 %v7, i16 %v8, i16 %v1\n"
    );
    let (_, out, _) = lower(TYPED, &call("llvm_sadd_sat_i16", &integer(16), 2, 1));
    assert!(out.contains("  %v1 = add i16 %a, %b\n"));
    assert!(out.contains("  %v5 = icmp eq i1 %v2, %v3\n"));
}

#[test]
fn unsigned_lowering() {
    let (r, out, next) = lower(TYPED, &call("llvm_uadd_sat_i32", &integer(32), 2, 1));
    assert_eq!((r, next), (Ok(()), 3));
    assert_eq!(
        out,
        "  %v1 = add i32 %a, %b\n\
         \x20 %v2 = icmp ult i32 %v1, %a\n\
         \x20 %v0 = select i1 %v2, i32 -1, i32 %v1\n"
    );
    let (r, out, next) = lower(TYPED, &call("llvm_usub_sat_i32", &integer(32), 2, 1));
    assert_eq!((r, next), (Ok(()), 3));
    assert_eq!(
        out,
        "  %v1 = sub i32 %a, %b\n\
         \x20 %v2 = icmp ult i32 %a, %b\n\
         \x20 %v0 = select i1 %v2, i32 0, i32 %v1\n"
    );
}

#[test]
fn wide_unsigned_integers_have_no_limits_to_spell() {
    let (r, out, _) = lower(TYPED, &call("llvm_uadd_sat_i256", &integer(256), 2, 1));
    assert_eq!(r, Ok(()));
    assert!(out.ends_with("  %v0 = select i1 %v2, i256 -1, i256 %v1\n"));
}

#[test]
fn wide_signed_integers_stop_behind_the_arithmetic() {
    let (r, out, next) = lower(TYPED, &call("llvm_sadd_sat_i129", &integer(129), 2, 1));
    assert_eq!(
        r,
        Err("cannot lower signed saturating intrinsic for i129".to_string())
    );
    assert_eq!(out, "  %v1 = add i129 %a, %b\n");
    assert_eq!(next, 9);
}

#[test]
fn malformed_saturating_calls() {
    for (operands, results) in [(1, 1), (3, 1), (2, 0), (2, 2)] {
        let (r, out, _) = lower(TYPED, &call("llvm_uadd_sat_i8", &integer(8), operands, results));
        assert_eq!(
            r,
            Err("saturating intrinsic calls must have one result and two operands".to_string())
        );
        assert_eq!(out, "");
    }
    let mut vector = integer(8);
    vector.kind = TypeKind::Other;
    let (r, out, next) = lower(TYPED, &call("llvm_uadd_sat_i8", &vector, 2, 1));
    assert_eq!(r, Err("saturating intrinsic result must be an integer".to_string()));
    assert_eq!((out.as_str(), next), ("", 1));

    let mut unspellable = integer(8);
    unspellable.spelling = Spelling::Unsupported("no such type".to_string());
    let (r, out, _) = lower(TYPED, &call("llvm_uadd_sat_i8", &unspellable, 2, 1));
    assert_eq!((r, out.as_str()), (Err("no such type".to_string()), ""));

    let mut state = ModuleExportState::new(TYPED);
    let mut out = String::new();
    let r = state.emit_typed_nvvm_saturating_intrinsic(
        &call("llvm_uadd_sat_i8", &integer(8), 2, 1),
        SaturatingIntrinsic::UnsignedAdd,
        &HashMap::new(),
        &mut 0,
        &mut out,
    );
    assert_eq!(r, Err("saturating intrinsic result was not named".to_string()));
    assert_eq!(out, "");
}

#[test]
fn opaque_pointers_keep_the_call() {
    for dialect in [OPAQUE, None] {
        let (r, out, next) = lower(dialect, &call("llvm_sadd_sat_i8", &integer(8), 2, 1));
        assert_eq!((r, next), (Ok(()), 1));
        assert_eq!(out, "  %v0 = call i8 @llvm.sadd.sat.i8(i8 %a, i8 %b)\n");
    }
}

/// Runs lowered instructions on values of `width` bits.
fn run(text: &str, width: u32, a: u128, b: u128) -> u128 {
    let mask = |w: u32| if w == 128 { u128::MAX } else { (1u128 << w) - 1 };
    let mut env: HashMap<String, u128> =
        HashMap::from([("%a".to_string(), a), ("%b".to_string(), b)]);
    let bits = |ty: &str| ty[1..].parse::<u32>().unwrap();
    let signed = |v: u128, w: u32| {
        if w == 128 {
            v as i128
        } else if v >> (w - 1) & 1 == 1 {
            v as i128 - (1i128 << w)
        } else {
            v as i128
        }
    };
    for line in text.lines() {
        let (dest, rhs) = line.trim().split_once(" = ").unwrap();
        let words: Vec<&str> = rhs.split([' ', ',']).filter(|w| !w.is_empty()).collect();
        let get = |s: &str, w: u32| match env.get(s) {
            Some(v) => *v,
            None => s.parse::<i128>().unwrap() as u128 & mask(w),
        };
        let result = match words[0] {
            "add" => get(words[2], width).wrapping_add(get(words[3], width)) & mask(width),
            "sub" => get(words[2], width).wrapping_sub(get(words[3], width)) & mask(width),
            "and" => get(words[2], 1) & get(words[3], 1),
            "icmp" => {
                let w = bits(words[2]);
                let (x, y) = (get(words[3], w), get(words[4], w));
                let holds = match words[1] {
                    "ult" => x < y,
                    "slt" => signed(x, w) < signed(y, w),
                    "eq" => x == y,
                    "ne" => x != y,
                    other => panic!("unknown predicate {other}"),
                };
                u128::from(holds)
            }
            "select" => {
                if get(words[2], 1) == 1 {
                    get(words[4], width)
                } else {
                    get(words[6], width)
                }
            }
            other => panic!("unknown instruction {other}"),
        };
        env.insert(dest.to_string(), result);
    }
    env["%v0"]
}

#[test]
fn lowered_instructions_saturate() {
    let code = |name: &str| lower(TYPED, &call(name, &integer(8), 2, 1)).1;
    let (sadd, ssub) = (code("llvm_sadd_sat_i8"), code("llvm_ssub_sat_i8"));
    let (uadd, usub) = (code("llvm_uadd_sat_i8"), code("llvm_usub_sat_i8"));
    for a in 0..=255u8 {
        for b in (0..=255u8).step_by(5) {
            let (x, y) = (u128::from(a), u128::from(b));
            assert_eq!(run(&uadd, 8, x, y), u128::from(a.saturating_add(b)));
            assert_eq!(run(&usub, 8, x, y), u128::from(a.saturating_sub(b)));
            let (s, t) = (a as i8, b as i8);
            assert_eq!(run(&sadd, 8, x, y), u128::from(s.saturating_add(t) as u8));
            assert_eq!(run(&ssub, 8, x, y), u128::from(s.saturating_sub(t) as u8));
        }
    }
}

#[test]
fn operations_are_found_by_the_names_of_their_types() {
    assert_eq!(LlvmOp::try_from("ReturnOp"), Ok(LlvmOp::Return));
    assert_eq!(LlvmOp::try_from("GetElementPtrOp"), Ok(LlvmOp::GetElementPtr));
    assert_eq!(LlvmOp::try_from("InlineAsmOp"), Ok(LlvmOp::InlineAsm));
    assert_eq!(LlvmOp::try_from("InlineAsmMultiOp"), Ok(LlvmOp::InlineAsmMulti));
    assert_eq!(LlvmOp::try_from("AddressOfOp"), Ok(LlvmOp::AddressOf));
    for name in ["", "Return", "returnop", "ReturnOp ", "SwitchOp"] {
        assert_eq!(LlvmOp::try_from(name), Err(()));
    }
}
