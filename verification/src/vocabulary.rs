//! What the words that contracts are made of mean, in terms of nothing but
//! their arguments.
use vstd::arithmetic::power2::{lemma2_to64, lemma_pow2_adds, pow2};
use vstd::prelude::*;

use crate::calls::callee_name;
use crate::config::NvvmIrDialect;
use crate::constants::{constant_text, little_endian};
use crate::ir::{ConstantAttr, Operation, Spelling, Type, TypeKind, Value};
use crate::ops::{named_results, names_behind, registered};
use crate::state::{cast_name, failure, opaque_qualifier, pointer_type, temp_name, value_text};
use crate::state::{typed_pointers, ModuleExportState, Printer};
use crate::text::{all_digits, begins_with, decimal, digit_run, number, replaced, signed_decimal};

verus! {

/// A number below ten is spelled by its digit, and one more digit behind the
/// spelling of a number multiplies it by ten and adds the digit.
pub proof fn law_decimal(n: nat, d: int)
    requires
        0 <= d < 10,
    ensures
        decimal(d as nat) == seq!["0123456789"@[d]],
        n > 0 ==> decimal(10 * n + d as nat) == decimal(n).push("0123456789"@[d]),
{
    reveal_strlit("0123456789");
    if n > 0 {
        let m = 10 * n + d as nat;
        assert(m / 10 == n && m % 10 == d);
    }
}

/// Negative numbers are spelled with a sign in front of the spelling of their
/// opposite.
pub proof fn law_signed_decimal(n: nat)
    ensures
        signed_decimal(n as int) == decimal(n),
        n > 0 ==> signed_decimal(-n) == "-"@ + decimal(n),
{
}

/// One more digit behind digits multiplies the number that they spell by ten and
/// adds the digit.
pub proof fn law_number(digits: Seq<char>, d: int)
    requires
        0 <= d < 10,
    ensures
        number(Seq::<char>::empty()) == 0,
        number(digits.push("0123456789"@[d])) == 10 * number(digits) + d,
{
    reveal_strlit("0123456789");
    assert(digits.push("0123456789"@[d]).drop_last() =~= digits);
}

/// A text is made of digits if each of its characters is one of the ten.
pub proof fn law_all_digits(s: Seq<char>)
    ensures
        all_digits(s) <==> forall|i: int|
            0 <= i < s.len() ==> "0123456789"@.contains(#[trigger] s[i]),
{
    reveal_strlit("0123456789");
    let ten = "0123456789"@;
    if all_digits(s) {
        assert forall|i: int| 0 <= i < s.len() implies ten.contains(#[trigger] s[i]) by {
            assert(crate::text::is_digit(s[i]));
            let d = s[i] as int - 48;
            assert(ten[d] == s[i]);
        }
    }
    if forall|i: int| 0 <= i < s.len() ==> ten.contains(#[trigger] s[i]) {
        assert forall|i: int| 0 <= i < s.len() implies crate::text::is_digit(#[trigger] s[i]) by {
            assert(ten.contains(s[i]));
            let d = choose|d: int| 0 <= d < ten.len() && ten[d] == s[i];
        }
    }
}

/// The digits that a text begins with are digits, and no digit follows them.
pub proof fn law_digit_run(s: Seq<char>)
    ensures
        digit_run(s) <= s.len(),
        forall|i: int| 0 <= i < digit_run(s) ==> "0123456789"@.contains(#[trigger] s[i]),
        digit_run(s) < s.len() ==> !"0123456789"@.contains(s[digit_run(s) as int]),
    decreases s.len(),
{
    reveal_strlit("0123456789");
    let ten = "0123456789"@;
    if s.len() > 0 {
        law_all_digits(seq![s[0]]);
        assert(seq![s[0]][0] == s[0]);
        if crate::text::is_digit(s[0]) {
            let rest = s.drop_first();
            law_digit_run(rest);
            assert(ten[s[0] as int - 48] == s[0]);
            assert forall|i: int| 0 <= i < digit_run(s) implies ten.contains(#[trigger] s[i]) by {
                if i > 0 {
                    assert(s[i] == rest[i - 1]);
                }
            }
        } else {
            if ten.contains(s[0]) {
                let d = choose|d: int| 0 <= d < ten.len() && ten[d] == s[0];
            }
        }
    }
}

/// A text begins with another if it is that and something behind it.
pub proof fn law_begins_with(s: Seq<char>, prefix: Seq<char>, rest: Seq<char>)
    ensures
        begins_with(prefix + rest, prefix),
        begins_with(s, prefix) ==> s == prefix + s.skip(prefix.len() as int),
{
    assert((prefix + rest).take(prefix.len() as int) =~= prefix);
    if begins_with(s, prefix) {
        assert(s =~= s.take(prefix.len() as int) + s.skip(prefix.len() as int));
    }
}

/// Replacing a character changes it wherever it stands, and nothing else.
pub proof fn law_replaced(s: Seq<char>, from: char, to: char)
    ensures
        replaced(s, from, to).len() == s.len(),
        forall|i: int|
            0 <= i < s.len() ==> #[trigger] replaced(s, from, to)[i] == (if s[i] == from {
                to
            } else {
                s[i]
            }),
{
}

/// Temporaries and pointer casts are named by their numbers.
pub proof fn law_generated_names(n: nat)
    ensures
        temp_name(n) == "%v"@ + decimal(n),
        cast_name(n) == "%ptrcast"@ + decimal(n),
{
}

/// A value that has a name is referred to by it, and any other is undefined.
pub proof fn law_value_text(names: Map<u64, Seq<char>>, name: Seq<char>, value: Value)
    ensures
        value_text(names.insert(value.id, name), value) == name,
        value_text(names.remove(value.id), value) == "undef"@,
        names.contains_key(value.id) ==> value_text(names, value) == names[value.id],
{
}

/// A type is spelled by its text, or fails with its message.
pub proof fn law_spelled(ty: Type, text: String)
    ensures
        ty.spelling == Spelling::Text(text) ==> ty.spelled() == Ok::<Seq<char>, Seq<char>>(text@),
        ty.spelling == Spelling::Unsupported(text) ==> ty.spelled() == Err::<Seq<char>, Seq<char>>(
            text@,
        ),
{
}

/// Pointer types have an address space; any other type is in space 0 and is no
/// pointer type.
pub proof fn law_address_space(ty: Type, space: u32)
    ensures
        ty.kind == (TypeKind::Pointer { address_space: space }) ==> ty.is_pointer()
            && ty.address_space() == space,
        !(ty.kind is Pointer) ==> !ty.is_pointer() && ty.address_space() == 0,
{
}

/// A typed pointer is spelled by its pointee and an asterisk, with an address
/// space other than the first one between them; an opaque one by `ptr`, with the
/// address space behind it.
pub proof fn law_pointer_types(pointee: Type, space: u32)
    ensures
        pointee.spelled() matches Ok(t) ==> {
            &&& pointer_type(pointee, 0) == Ok::<Seq<char>, Seq<char>>(t + "*"@)
            &&& space != 0 ==> pointer_type(pointee, space) == Ok::<Seq<char>, Seq<char>>(
                t + " addrspace("@ + decimal(space as nat) + ")*"@,
            )
        },
        pointee.spelled() matches Err(e) ==> pointer_type(pointee, space) == Err::<
            Seq<char>,
            Seq<char>,
        >(e),
        opaque_qualifier(0) == "ptr "@,
        space != 0 ==> opaque_qualifier(space) == "ptr addrspace("@ + decimal(space as nat)
            + ") "@,
{
}

/// A printer holds all of the state of an export, the output and the error.
pub proof fn law_printer(
    state: ModuleExportState,
    out: Seq<char>,
    error: Option<Seq<char>>,
    id: u64,
)
    ensures
        ({
            let p = state.printer(out, error);
            let types = state.typed_pointer_value_types@;
            &&& p.out == out
            &&& p.error == error
            &&& p.dialect == state.nvvm_ir_dialect
            &&& p.convergent_used == state.convergent_used
            &&& p.next_cast == state.next_pointer_cast_id
            &&& p.pointer_types.contains_key(id) == types.contains_key(id)
            &&& types.contains_key(id) ==> p.pointer_types[id] == types[id]@
        }),
{
}

/// A result has the error message that it carries, and none on success.
pub proof fn law_failure(message: String, r: Result<(), String>)
    ensures
        failure(Ok::<(), String>(())) is None,
        failure(Err::<(), String>(message)) == Some(message@),
        failure(r) is None <==> r is Ok,
{
}

/// What a pointer is known to be defined with: the type that was recorded last,
/// or else its own.
pub proof fn law_pointer_value_type(p: Printer, ptr: Value, t: Seq<char>)
    requires
        p.error is None,
    ensures
        p.record_pointer(ptr.id, Ok(t)).pointer_value_type(ptr) == Ok::<Seq<char>, Seq<char>>(t),
        !p.pointer_types.contains_key(ptr.id) ==> p.pointer_value_type(ptr) == ptr.ty.spelled(),
        p.pointer_types.contains_key(ptr.id) ==> p.pointer_value_type(ptr) == Ok::<
            Seq<char>,
            Seq<char>,
        >(p.pointer_types[ptr.id]),
{
}

/// A function of the module is called by its name without the device prefix,
/// and an intrinsic by its name with dots for underscores.
pub proof fn law_callee_name(rest: Seq<char>, name: Seq<char>, device_name: Seq<char>)
    ensures
        callee_name("llvm_"@ + rest, device_name) == "llvm."@ + replaced(rest, '_', '.'),
        !(name.len() >= 5 && name.take(5) == "llvm_"@) ==> callee_name(name, device_name)
            == device_name,
{
    reveal_strlit("llvm_");
    reveal_strlit("llvm.");
    law_begins_with(name, "llvm_"@, rest);
    assert(replaced("llvm_"@ + rest, '_', '.') =~= "llvm."@ + replaced(rest, '_', '.'));
}

/// Bytes in front of others are the less significant ones.
pub proof fn law_little_endian(byte: u8, low: Seq<u8>, high: Seq<u8>)
    ensures
        little_endian(Seq::<u8>::empty()) == 0,
        little_endian(seq![byte]) == byte,
        little_endian(low + high) == little_endian(low) + pow2(
            8 * low.len(),
        ) * little_endian(high),
    decreases low.len(),
{
    lemma2_to64();
    reveal_with_fuel(little_endian, 2);
    assert(seq![byte].drop_first() =~= Seq::<u8>::empty());
    if low.len() == 0 {
        assert(low + high =~= high);
        let (e, h) = (pow2(8 * low.len()), little_endian(high));
        assert(e * h == h) by (nonlinear_arith)
            requires
                e == 1,
        ;
    } else {
        let rest = low.drop_first();
        law_little_endian(byte, rest, high);
        assert((low + high).drop_first() =~= rest + high);
        lemma_pow2_adds(8, 8 * rest.len());
        let (l, h) = (little_endian(rest), little_endian(high));
        let e = pow2(8 * rest.len());
        assert(pow2(8 * low.len()) == 256 * e);
        assert((low + high)[0] == low[0]);
        assert(little_endian(low + high) == low[0] + 256 * little_endian(rest + high));
        assert(256 * (l + e * h) == 256 * l + (256 * e) * h) by (nonlinear_arith);
        assert(little_endian(low + high) == low[0] + 256 * (l + e * h));
    }
}

/// An integer constant is printed as the decimal of its value below two to the
/// power of its width, a number by its literal, and anything else as zero.
pub proof fn law_constant_text(bytes: Vec<u8>, width: u32, literal: String)
    ensures
        constant_text(ConstantAttr::Integer { bytes, width }) == decimal(
            little_endian(bytes@) % pow2(width as nat),
        ),
        constant_text(ConstantAttr::Half { literal }) == literal@,
        constant_text(ConstantAttr::Single { literal }) == literal@,
        constant_text(ConstantAttr::Double { literal }) == literal@,
        constant_text(ConstantAttr::Other) == "0"@,
{
}

/// Results are named in order: one that has a name keeps it and takes no number,
/// and any other takes the next one.
pub proof fn law_results_are_numbered(
    names: Map<u64, Seq<char>>,
    op: Operation,
    n: usize,
    results: Seq<Value>,
    k: nat,
)
    ensures
        registered(names, op, n) == named_results(
            names,
            op.results@,
            n as nat,
            op.results@.len(),
        ),
        named_results(names, results, n as nat, 0) == (names, n as nat),
        ({
            let (before, next) = named_results(names, results, n as nat, k);
            let id = results[k as int].id;
            &&& before.contains_key(id) ==> named_results(names, results, n as nat, k + 1) == (
                before,
                next,
            )
            &&& !before.contains_key(id) ==> named_results(names, results, n as nat, k + 1) == (
                before.insert(id, "%v"@ + decimal(next)),
                next + 1,
            )
        }),
{
}

/// Undefined values and constants are named by what stands for them, and every
/// other operation leaves the names of its results as they are.
pub proof fn law_names_behind(op: Operation, names: Map<u64, Seq<char>>)
    ensures
        op.op_type@ == "UndefOp"@ ==> names_behind(op, names) == names.insert(
            op.results@[0].id,
            "undef"@,
        ),
        op.op_type@ == "ConstantOp"@ ==> names_behind(op, names) == names.insert(
            op.results@[0].id,
            constant_text(op.attrs->Constant_0),
        ),
        op.op_type@ != "UndefOp"@ && op.op_type@ != "ConstantOp"@ ==> names_behind(op, names)
            == names,
{
    crate::llvm_op::lemma_of_type(crate::llvm_op::LlvmOp::Undef);
    crate::llvm_op::lemma_of_type(crate::llvm_op::LlvmOp::Constant);
    crate::llvm_op::lemma_called(op.op_type@);
}

/// As long as there is no error a text is put behind the output, and what cannot
/// be spelled stops the export; behind an error nothing happens any more.
pub proof fn law_printing(p: Printer, s: Seq<char>, message: Seq<char>)
    ensures
        p.error is None ==> p.text(s) == (Printer { out: p.out + s, ..p }),
        p.error is None ==> p.fail(message) == (Printer { error: Some(message), ..p }),
        p.error is None ==> p.spelling(Ok(s)) == (Printer { out: p.out + s, ..p }),
        p.error is None ==> p.spelling(Err(message)) == (Printer { error: Some(message), ..p }),
        p.error is None ==> p.spelling_behind(", "@, Ok(s)) == (Printer {
            out: p.out + ", "@ + s,
            ..p
        }),
        p.error is None ==> p.spelling_behind(", "@, Err(message)) == (Printer {
            error: Some(message),
            ..p
        }),
        p.error is Some ==> p.text(s) == p && p.fail(message) == p && p.spelling(Ok(s)) == p
            && p.spelling(Err(message)) == p,
{
}

/// A type is printed by its spelling.
pub proof fn law_type_text(p: Printer, ty: Type)
    requires
        p.error is None,
    ensures
        ty.spelled() matches Ok(t) ==> p.ty(ty) == (Printer { out: p.out + t, ..p }),
        ty.spelled() matches Err(e) ==> p.ty(ty) == (Printer { error: Some(e), ..p }),
{
}

/// Only one of the dialects has typed pointers.
pub proof fn law_typed_pointers()
    ensures
        typed_pointers(Some(NvvmIrDialect::TypedPointers)),
        !typed_pointers(Some(NvvmIrDialect::OpaquePointers)),
        !typed_pointers(None),
{
}

/// An opaque pointer operand is used as it is; a typed one has the type of a
/// pointer to the pointee, with a space behind it.
pub proof fn law_pointer_operands(
    p: Printer,
    names: Map<u64, Seq<char>>,
    ptr: Value,
    pointee: Type,
    space: u32,
)
    ensures
        ({
            let q = p.pointer_operand(names, ptr, pointee, space);
            let ty = p.ptr_operand_type(pointee, space);
            if p.dialect == Some(NvvmIrDialect::TypedPointers) {
                &&& p.error is None && pointee.spelled() is Err ==> q == (Printer {
                    error: Some(pointee.spelled()->Err_0),
                    ..p
                })
                &&& p.error is None && pointee.spelled() is Ok && p.pointer_value_type(
                    ptr,
                ) is Err ==> q == (Printer {
                    error: Some(p.pointer_value_type(ptr)->Err_0),
                    ..p
                })
                &&& pointer_type(pointee, space) matches Ok(s) ==> ty == Ok::<
                    Seq<char>,
                    Seq<char>,
                >(s + " "@)
                &&& pointer_type(pointee, space) matches Err(e) ==> ty == Err::<
                    Seq<char>,
                    Seq<char>,
                >(e)
            } else {
                &&& q == p
                &&& p.pointer_operand_name(names, ptr, pointee, space) == value_text(names, ptr)
                &&& ty == Ok::<Seq<char>, Seq<char>>(opaque_qualifier(space))
            }
        }),
{
}

/// A value is used in a slot of a type as it is, unless pointers are typed and it
/// is a pointer that is defined with another type: that is cast to the type of the
/// slot, and referred to by the name of the cast.
pub proof fn law_coerced_values(
    p: Printer,
    names: Map<u64, Seq<char>>,
    value: Value,
    slot: Seq<char>,
)
    requires
        p.error is None,
    ensures
        ({
            let q = p.coerce_pointer(names, value, slot);
            let name = p.coerced_name(names, value, slot);
            let cast = "%ptrcast"@ + decimal(p.next_cast);
            if p.dialect != Some(NvvmIrDialect::TypedPointers) || !(value.ty.kind is Pointer) {
                q == p && name == value_text(names, value)
            } else {
                match p.pointer_value_type(value) {
                    Err(e) => q == (Printer { error: Some(e), ..p }),
                    Ok(defined) => {
                        &&& defined == slot ==> q == p && name == value_text(names, value)
                        &&& defined != slot ==> name == cast && q == (Printer {
                            out: p.out + "  "@ + cast + " = "@ + "bitcast"@ + " "@ + defined + " "@
                                + value_text(names, value) + " to "@ + slot + "\n"@,
                            next_cast: p.next_cast + 1,
                            ..p
                        })
                    },
                }
            }
        }),
{
}

} // verus!
