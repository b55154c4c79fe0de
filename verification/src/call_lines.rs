//! The lines that calls and assembly are printed as.
use vstd::arithmetic::power2::pow2;
use vstd::prelude::*;

use crate::calls::{call_temporaries, callee_name, lemma_extractions_stopped, lowered_intrinsic};
use crate::calls::struct_type;
use crate::config::NvvmIrDialect;
use crate::ir::{CallOpCallable, OpAttrs, Operation, TypeKind, Value};
use crate::lists::{concatenated, joined, law_structures_join_types, law_values_are_joined};
use crate::lists::{law_structures_stop, law_values_stop, type_texts, typed_texts};
use crate::saturating::{binary_line, lemma_nine_instructions, lemma_number_spellings};
use crate::saturating::{lemma_one_instruction, lemma_three_instructions, lowering, select_line};
use crate::saturating::{IntType, SaturatingIntrinsic};
use crate::state::{lemma_values_stopped, value_text, Printer};
use crate::text::{decimal, lemma_decimal_number, replaced};
use crate::vocabulary::{law_all_digits, law_begins_with, law_callee_name};

verus! {

/// Whether the types of all values can be spelled.
pub open spec fn spelled(values: Seq<Value>) -> bool {
    forall|i: int| 0 <= i < values.len() ==> (#[trigger] values[i]).ty.spelled() is Ok
}

/// Whether value `k` is the first one whose type cannot be spelled.
pub open spec fn stops_at(values: Seq<Value>, k: int) -> bool {
    &&& 0 <= k < values.len()
    &&& forall|i: int| 0 <= i < k ==> (#[trigger] values[i]).ty.spelled() is Ok
    &&& values[k].ty.spelled() is Err
}

/// What is printed of arguments up to the first one, with number `k`, whose type
/// cannot be spelled.
pub open spec fn arguments_before(
    names: Map<u64, Seq<char>>,
    values: Seq<Value>,
    k: int,
) -> Seq<char> {
    if k == 0 {
        joined(", "@, typed_texts(names, values.take(k))) + Seq::empty()
    } else {
        joined(", "@, typed_texts(names, values.take(k))) + ", "@
    }
}

/// The arguments of a call, and its end.
proof fn lemma_arguments(
    p: Printer,
    names: Map<u64, Seq<char>>,
    values: Seq<Value>,
    convergent: bool,
    k: int,
)
    requires
        p.error is None,
    ensures
        ({
            let q = p.typed_values(names, values, values.len()).end_call(convergent);
            &&& spelled(values) ==> q == (Printer {
                out: p.out + joined(", "@, typed_texts(names, values)) + (if convergent {
                    ") #0\n"@
                } else {
                    ")\n"@
                }),
                convergent_used: p.convergent_used || convergent,
                ..p
            })
            &&& stops_at(values, k) ==> q == (Printer {
                out: p.out + arguments_before(names, values, k),
                error: Some(values[k].ty.spelled()->Err_0),
                ..p
            })
        }),
{
    if spelled(values) {
        law_values_are_joined(p, names, values);
    }
    if stops_at(values, k) {
        law_values_stop(p, names, values, k);
        let list = joined(", "@, typed_texts(names, values.take(k)));
        assert(p.out + list + ", "@ =~= p.out + (list + ", "@));
        assert(p.out + list + Seq::<char>::empty() =~= p.out + (list + Seq::<char>::empty()));
    }
}

/// A call: the name of its result and the result type, or `void`; what is called;
/// and in brackets the operands in order, each behind its type. Convergent calls
/// carry the attribute group `#0`, and the module is then known to need it.
pub proof fn law_call_line(p: Printer, op: Operation, names: Map<u64, Seq<char>>, n: nat, k: int)
    requires
        p.error is None,
        op.attrs is Call,
        lowered_intrinsic(p.dialect, op.attrs) is None,
    ensures
        ({
            let q = p.call(op, names, n);
            let result_type = op.attrs->Call_result_type;
            let head = p.out + "  "@ + names[op.results@[0].id] + " = "@ + "call"@ + " "@;
            let convergent = op.attrs->Call_callee is Direct && op.attrs->Call_convergent;
            let begun = if result_type.kind is Void {
                p.out + "  call void"@
            } else {
                head + result_type.spelled()->Ok_0
            };
            let opened = match op.attrs->Call_callee {
                CallOpCallable::Direct { name, device_name } => begun + " @"@ + callee_name(
                    name@,
                    device_name@,
                ) + "("@,
                CallOpCallable::Indirect(callee) => begun + " "@ + value_text(names, callee)
                    + "("@,
            };
            if !(result_type.kind is Void) && result_type.spelled() is Err {
                q == (Printer { out: head, error: Some(result_type.spelled()->Err_0), ..p })
            } else {
                &&& spelled(op.operands@) ==> q == (Printer {
                    out: opened + joined(", "@, typed_texts(names, op.operands@)) + (
                    if convergent {
                        ") #0\n"@
                    } else {
                        ")\n"@
                    }),
                    convergent_used: p.convergent_used || convergent,
                    ..p
                })
                &&& stops_at(op.operands@, k) ==> q == (Printer {
                    out: opened + arguments_before(names, op.operands@, k),
                    error: Some(op.operands@[k].ty.spelled()->Err_0),
                    ..p
                })
            }
        }),
{
    broadcast use lemma_values_stopped;

    let result_type = op.attrs->Call_result_type;
    let begun = if result_type.kind is Void {
        p.text("  call void"@)
    } else {
        p.definition(names, op.results@[0], "call"@).ty(result_type)
    };
    let convergent = op.attrs->Call_callee is Direct && op.attrs->Call_convergent;
    let opened = match op.attrs->Call_callee {
        CallOpCallable::Direct { name, device_name } => begun.text(" @"@).text(
            callee_name(name@, device_name@),
        ).text("("@),
        CallOpCallable::Indirect(callee) => begun.text(" "@).value(names, callee).text("("@),
    };
    if opened.error is None {
        lemma_arguments(opened, names, op.operands@, convergent, k);
    }
}

/// Assembly: behind the type of its result, or `void`, the template and the
/// constraints in quotes, and in brackets the operands in order, each behind its
/// type. Convergent assembly carries the attribute group `#0`.
pub proof fn law_assembly_line(p: Printer, op: Operation, names: Map<u64, Seq<char>>, k: int)
    requires
        p.error is None,
        op.attrs is InlineAsm,
    ensures
        ({
            let q = p.inline_asm(op, names);
            let head = p.out + "  "@ + names[op.results@[0].id] + " = "@ + "call"@ + " "@;
            let ty = op.results@[0].ty;
            let begun = if op.results@.len() == 0 {
                p.out + "  call void"@
            } else {
                head + ty.spelled()->Ok_0
            };
            let opened = begun + " asm sideeffect \""@ + op.attrs->InlineAsm_template@ + "\", \""@
                + op.attrs->InlineAsm_constraints@ + "\"("@;
            let convergent = op.attrs->InlineAsm_convergent;
            if op.results@.len() > 0 && ty.spelled() is Err {
                q == (Printer { out: head, error: Some(ty.spelled()->Err_0), ..p })
            } else {
                &&& spelled(op.operands@) ==> q == (Printer {
                    out: opened + joined(", "@, typed_texts(names, op.operands@)) + (
                    if convergent {
                        ") #0\n"@
                    } else {
                        ")\n"@
                    }),
                    convergent_used: p.convergent_used || convergent,
                    ..p
                })
                &&& stops_at(op.operands@, k) ==> q == (Printer {
                    out: opened + arguments_before(names, op.operands@, k),
                    error: Some(op.operands@[k].ty.spelled()->Err_0),
                    ..p
                })
            }
        }),
{
    broadcast use lemma_values_stopped;

    let begun = if op.results@.len() > 0 {
        p.definition(names, op.results@[0], "call"@).ty(op.results@[0].ty)
    } else {
        p.text("  call void"@)
    };
    let opened = begun.text(" asm sideeffect \""@).text(op.attrs->InlineAsm_template@).text(
        "\", \""@,
    ).text(op.attrs->InlineAsm_constraints@).text("\"("@);
    if opened.error is None {
        lemma_arguments(opened, names, op.operands@, op.attrs->InlineAsm_convergent, k);
    }
}

/// The lines that extract results from a structure, each with its number.
pub open spec fn extraction_lines(
    results: Seq<Value>,
    names: Map<u64, Seq<char>>,
    ty: Seq<char>,
    source: Seq<char>,
) -> Seq<Seq<char>> {
    Seq::new(
        results.len(),
        |i: int|
            "  "@ + names[results[i].id] + " = "@ + "extractvalue"@ + " "@ + ty + " "@ + source
                + ", "@ + decimal(i as nat) + "\n"@,
    )
}

/// The first results are extracted one by one.
proof fn lemma_extractions(
    p: Printer,
    results: Seq<Value>,
    names: Map<u64, Seq<char>>,
    ty: Seq<char>,
    source: Seq<char>,
    k: nat,
)
    requires
        p.error is None,
        k <= results.len(),
    ensures
        p.extractions(results, names, ty, source, k) == (Printer {
            out: p.out + concatenated(extraction_lines(results, names, ty, source).take(k as int)),
            ..p
        }),
    decreases k,
{
    let lines = extraction_lines(results, names, ty, source);
    if k == 0 {
        assert(p.out =~= p.out + concatenated(lines.take(0)));
    } else {
        lemma_extractions(p, results, names, ty, source, (k - 1) as nat);
        assert(lines.take(k as int).drop_last() =~= lines.take(k - 1));
        let before = concatenated(lines.take(k - 1));
        let name = names[results[k - 1].id];
        let d = decimal((k - 1) as nat);
        assert(lines.take(k as int).last() == lines[k - 1]);
        assert(p.out + before + "  "@ + name + " = "@ + "extractvalue"@ + " "@ + ty + " "@ + source
            + ", "@ + d + "\n"@ =~= p.out + (before + ("  "@ + name + " = "@ + "extractvalue"@
            + " "@ + ty + " "@ + source + ", "@ + d + "\n"@)));
    }
}

/// Assembly with any number of results: without any it is like other assembly;
/// otherwise it gives a structure of their types, named after the first result,
/// from which each result is extracted by its number, in order.
pub proof fn law_assembly_lines(p: Printer, op: Operation, names: Map<u64, Seq<char>>, k: int)
    requires
        p.error is None,
        op.attrs is InlineAsm,
    ensures
        ({
            let q = p.inline_asm_multi(op, names);
            let results = op.results@;
            let source = names[results[0].id] + "_struct"@;
            let ty = "{"@ + joined(", "@, type_texts(results)) + "}"@;
            let begun = if results.len() == 0 {
                p.out + "  call void"@
            } else {
                p.out + "  "@ + source + " = call "@ + ty
            };
            let opened = begun + " asm sideeffect \""@ + op.attrs->InlineAsm_template@ + "\", \""@
                + op.attrs->InlineAsm_constraints@ + "\"("@;
            let convergent = op.attrs->InlineAsm_convergent;
            &&& results.len() > 0 && struct_type(results) is Err ==> q == (Printer {
                error: Some(struct_type(results)->Err_0),
                ..p
            })
            &&& spelled(results) && spelled(op.operands@) ==> q == (Printer {
                out: opened + joined(", "@, typed_texts(names, op.operands@)) + (if convergent {
                    ") #0\n"@
                } else {
                    ")\n"@
                }) + concatenated(extraction_lines(results, names, ty, source)),
                convergent_used: p.convergent_used || convergent,
                ..p
            })
            &&& spelled(results) && stops_at(op.operands@, k) ==> q == (Printer {
                out: opened + arguments_before(names, op.operands@, k),
                error: Some(op.operands@[k].ty.spelled()->Err_0),
                ..p
            })
        }),
{
    broadcast use {lemma_values_stopped, lemma_extractions_stopped};

    let results = op.results@;
    let source = names[results[0].id] + "_struct"@;
    let ty = "{"@ + joined(", "@, type_texts(results)) + "}"@;
    let lines = extraction_lines(results, names, ty, source);
    if spelled(results) {
        law_structures_join_types(results);
        let begun = if results.len() == 0 {
            p.text("  call void"@)
        } else {
            p.text("  "@).text(source).text(" = call "@).text(ty)
        };
        let opened = begun.text(" asm sideeffect \""@).text(op.attrs->InlineAsm_template@).text(
            "\", \""@,
        ).text(op.attrs->InlineAsm_constraints@).text("\"("@);
        let convergent = op.attrs->InlineAsm_convergent;
        lemma_arguments(opened, names, op.operands@, convergent, k);
        let called = opened.typed_values(names, op.operands@, op.operands@.len()).end_call(
            convergent,
        );
        if spelled(op.operands@) {
            assert(lines.take(results.len() as int) =~= lines);
            lemma_extractions(called, results, names, ty, source, results.len());
            if results.len() == 0 {
                assert(called.out =~= called.out + concatenated(lines));
            }
        }
    }
}

/// Values whose types cannot all be spelled have a first such value.
proof fn lemma_first_stop(values: Seq<Value>, m: nat) -> (k: int)
    requires
        m <= values.len(),
        exists|i: int| 0 <= i < m && (#[trigger] values[i]).ty.spelled() is Err,
    ensures
        stops_at(values, k),
    decreases m,
{
    if exists|i: int| 0 <= i < m - 1 && (#[trigger] values[i]).ty.spelled() is Err {
        lemma_first_stop(values, (m - 1) as nat)
    } else {
        m - 1
    }
}

/// The operands of a call or of assembly that is exported without an error have
/// types that can be spelled, so that they stand in its brackets, joined.
pub proof fn law_exported_calls_are_complete(
    p: Printer,
    op: Operation,
    names: Map<u64, Seq<char>>,
    n: nat,
)
    requires
        p.error is None,
    ensures
        op.attrs is Call && lowered_intrinsic(p.dialect, op.attrs) is None && p.call(
            op,
            names,
            n,
        ).error is None ==> spelled(op.operands@) && (op.attrs->Call_result_type.kind is Void
            || op.attrs->Call_result_type.spelled() is Ok),
        op.attrs is InlineAsm && p.inline_asm(op, names).error is None ==> spelled(op.operands@)
            && (op.results@.len() == 0 || op.results@[0].ty.spelled() is Ok),
        op.attrs is InlineAsm && p.inline_asm_multi(op, names).error is None ==> spelled(
            op.operands@,
        ) && spelled(op.results@),
{
    let values = op.operands@;
    let k = if spelled(values) {
        0
    } else {
        lemma_first_stop(values, values.len())
    };
    if op.attrs is Call && lowered_intrinsic(p.dialect, op.attrs) is None {
        law_call_line(p, op, names, n, k);
    }
    if op.attrs is InlineAsm {
        law_assembly_line(p, op, names, k);
        law_assembly_lines(p, op, names, k);
        if !spelled(op.results@) {
            let r = lemma_first_stop(op.results@, op.results@.len());
            law_structures_stop(op.results@, r, op.results@.len());
        }
    }
}

/// The name of a saturating intrinsic is what it does and the width of what it
/// takes, in decimal.
pub proof fn law_saturating_names(width: nat)
    ensures
        SaturatingIntrinsic::named("llvm.sadd.sat.i"@ + decimal(width)) == Some(
            SaturatingIntrinsic::SignedAdd,
        ),
        SaturatingIntrinsic::named("llvm.ssub.sat.i"@ + decimal(width)) == Some(
            SaturatingIntrinsic::SignedSub,
        ),
        SaturatingIntrinsic::named("llvm.uadd.sat.i"@ + decimal(width)) == Some(
            SaturatingIntrinsic::UnsignedAdd,
        ),
        SaturatingIntrinsic::named("llvm.usub.sat.i"@ + decimal(width)) == Some(
            SaturatingIntrinsic::UnsignedSub,
        ),
{
    lemma_decimal_number(width);
    law_all_digits(decimal(width));
    law_saturating_suffixes(decimal(width));
}

/// Whatever digits follow it, the beginning of its names tells an intrinsic.
pub proof fn law_saturating_suffixes(digits: Seq<char>)
    requires
        digits.len() > 0,
        forall|i: int| 0 <= i < digits.len() ==> "0123456789"@.contains(#[trigger] digits[i]),
    ensures
        SaturatingIntrinsic::named("llvm.sadd.sat.i"@ + digits) == Some(
            SaturatingIntrinsic::SignedAdd,
        ),
        SaturatingIntrinsic::named("llvm.ssub.sat.i"@ + digits) == Some(
            SaturatingIntrinsic::SignedSub,
        ),
        SaturatingIntrinsic::named("llvm.uadd.sat.i"@ + digits) == Some(
            SaturatingIntrinsic::UnsignedAdd,
        ),
        SaturatingIntrinsic::named("llvm.usub.sat.i"@ + digits) == Some(
            SaturatingIntrinsic::UnsignedSub,
        ),
{
    law_all_digits(digits);
    lemma_named(SaturatingIntrinsic::SignedAdd, digits);
    lemma_named(SaturatingIntrinsic::SignedSub, digits);
    lemma_named(SaturatingIntrinsic::UnsignedAdd, digits);
    lemma_named(SaturatingIntrinsic::UnsignedSub, digits);
}

/// The beginning of its names and digits behind it name an intrinsic.
proof fn lemma_named(x: SaturatingIntrinsic, digits: Seq<char>)
    requires
        digits.len() > 0,
        crate::text::all_digits(digits),
    ensures
        SaturatingIntrinsic::named(x.prefix() + digits) == Some(x),
{
    let name = x.prefix() + digits;
    law_begins_with(name, x.prefix(), digits);
    assert(name.skip(x.prefix().len() as int) =~= digits);
    crate::saturating::law_intrinsic_of_name(x, name);
}

/// A name that belongs to a saturating intrinsic is the beginning of its names
/// and, behind it, at least one digit and nothing but digits.
pub proof fn law_saturating_names_end_in_digits(name: Seq<char>)
    ensures
        SaturatingIntrinsic::named(name) matches Some(x) ==> {
            let digits = name.skip(15);
            &&& digits.len() > 0
            &&& forall|i: int|
                0 <= i < digits.len() ==> "0123456789"@.contains(#[trigger] digits[i])
            &&& name == (match x {
                SaturatingIntrinsic::SignedAdd => "llvm.sadd.sat.i"@,
                SaturatingIntrinsic::SignedSub => "llvm.ssub.sat.i"@,
                SaturatingIntrinsic::UnsignedAdd => "llvm.uadd.sat.i"@,
                SaturatingIntrinsic::UnsignedSub => "llvm.usub.sat.i"@,
            }) + digits
        },
{
    reveal_strlit("llvm.sadd.sat.i");
    reveal_strlit("llvm.ssub.sat.i");
    reveal_strlit("llvm.uadd.sat.i");
    reveal_strlit("llvm.usub.sat.i");
    if let Some(x) = SaturatingIntrinsic::named(name) {
        let digits = name.skip(15);
        assert(x.prefix().len() == 15);
        law_all_digits(digits);
        law_begins_with(name, x.prefix(), digits);
    }
}

/// A call is lowered exactly if pointers are typed and it calls a saturating
/// intrinsic directly.
pub proof fn law_lowered_calls(
    dialect: Option<NvvmIrDialect>,
    attrs: OpAttrs,
    name: String,
    device_name: String,
)
    requires
        attrs is Call,
    ensures
        attrs->Call_callee == (CallOpCallable::Direct { name, device_name }) && dialect == Some(
            NvvmIrDialect::TypedPointers,
        ) ==> lowered_intrinsic(dialect, attrs) == SaturatingIntrinsic::named(
            callee_name(name@, device_name@),
        ),
        attrs->Call_callee is Indirect ==> lowered_intrinsic(dialect, attrs) is None,
        dialect != Some(NvvmIrDialect::TypedPointers) ==> lowered_intrinsic(dialect, attrs) is None,
{
}

/// With typed pointers no call of a saturating intrinsic is printed as a call:
/// whatever the width that it is named for, its lowering is printed.
pub proof fn law_saturating_calls_are_lowered(
    p: Printer,
    op: Operation,
    names: Map<u64, Seq<char>>,
    n: nat,
    width: nat,
    name: String,
    device_name: String,
)
    requires
        p.dialect == Some(NvvmIrDialect::TypedPointers),
        op.attrs is Call,
        op.attrs->Call_callee == (CallOpCallable::Direct { name, device_name }),
    ensures
        ({
            let q = p.call(op, names, n);
            let d = decimal(width);
            let plain = !(name@.len() >= 5 && name@.take(5) == "llvm_"@);
            &&& name@ == "llvm_sadd_sat_i"@ + d || (plain && device_name@ == "llvm.sadd.sat.i"@ + d)
                ==> q == p.saturating(op, SaturatingIntrinsic::SignedAdd, names, n)
            &&& name@ == "llvm_ssub_sat_i"@ + d || (plain && device_name@ == "llvm.ssub.sat.i"@ + d)
                ==> q == p.saturating(op, SaturatingIntrinsic::SignedSub, names, n)
            &&& name@ == "llvm_uadd_sat_i"@ + d || (plain && device_name@ == "llvm.uadd.sat.i"@ + d)
                ==> q == p.saturating(op, SaturatingIntrinsic::UnsignedAdd, names, n)
            &&& name@ == "llvm_usub_sat_i"@ + d || (plain && device_name@ == "llvm.usub.sat.i"@ + d)
                ==> q == p.saturating(op, SaturatingIntrinsic::UnsignedSub, names, n)
        }),
{
    law_saturating_names(width);
    let d = decimal(width);
    let device = device_name@;
    law_callee_name(d, name@, device);
    assert(callee_name("llvm_sadd_sat_i"@ + d, device) == "llvm.sadd.sat.i"@ + d) by {
        reveal_strlit("llvm_sadd_sat_i");
        reveal_strlit("llvm.sadd.sat.i");
        lemma_intrinsic_callee("llvm_sadd_sat_i"@, "llvm.sadd.sat.i"@, width, device);
    }
    assert(callee_name("llvm_ssub_sat_i"@ + d, device) == "llvm.ssub.sat.i"@ + d) by {
        reveal_strlit("llvm_ssub_sat_i");
        reveal_strlit("llvm.ssub.sat.i");
        lemma_intrinsic_callee("llvm_ssub_sat_i"@, "llvm.ssub.sat.i"@, width, device);
    }
    assert(callee_name("llvm_uadd_sat_i"@ + d, device) == "llvm.uadd.sat.i"@ + d) by {
        reveal_strlit("llvm_uadd_sat_i");
        reveal_strlit("llvm.uadd.sat.i");
        lemma_intrinsic_callee("llvm_uadd_sat_i"@, "llvm.uadd.sat.i"@, width, device);
    }
    assert(callee_name("llvm_usub_sat_i"@ + d, device) == "llvm.usub.sat.i"@ + d) by {
        reveal_strlit("llvm_usub_sat_i");
        reveal_strlit("llvm.usub.sat.i");
        lemma_intrinsic_callee("llvm_usub_sat_i"@, "llvm.usub.sat.i"@, width, device);
    }
}

/// An intrinsic is called by its name with dots for underscores.
proof fn lemma_intrinsic_callee(
    underscored: Seq<char>,
    dotted: Seq<char>,
    width: nat,
    device_name: Seq<char>,
)
    requires
        underscored.len() >= 5,
        underscored.len() == dotted.len(),
        underscored[0] == 'l' && underscored[1] == 'l' && underscored[2] == 'v' && underscored[3]
            == 'm' && underscored[4] == '_',
        forall|i: int|
            0 <= i < underscored.len() ==> dotted[i] == (if #[trigger] underscored[i] == '_' {
                '.'
            } else {
                underscored[i]
            }),
    ensures
        callee_name(underscored + decimal(width), device_name) == dotted + decimal(width),
{
    let name = underscored + decimal(width);
    reveal_strlit("llvm_");
    lemma_decimal_number(width);
    assert(name.take(5) =~= "llvm_"@);
    assert forall|i: int| 0 <= i < decimal(width).len() implies #[trigger] decimal(width)[i]
        != '_' by {
        assert(crate::text::is_digit(decimal(width)[i]));
    }
    assert(replaced(name, '_', '.') =~= dotted + decimal(width)) by {
        assert forall|i: int| 0 <= i < name.len() implies replaced(name, '_', '.')[i] == (dotted
            + decimal(width))[i] by {
            if i < underscored.len() {
                assert(name[i] == underscored[i]);
            } else {
                assert(name[i] == decimal(width)[i - underscored.len()]);
            }
        }
    }
}

/// A saturating addition of unsigned numbers: the sum, whether it is less than
/// the left operand, and the largest number if so, which is `-1`.
pub proof fn law_unsigned_addition_lines(
    p: Printer,
    op: Operation,
    names: Map<u64, Seq<char>>,
    n: nat,
    t: Seq<char>,
    width: u32,
)
    requires
        p.error is None,
        op.results@.len() == 1 && op.operands@.len() == 2,
        names.contains_key(op.results@[0].id),
        op.results@[0].ty.kind == (TypeKind::Integer { width }),
        op.results@[0].ty.spelled() == Ok::<Seq<char>, Seq<char>>(t),
    ensures
        ({
            let a = value_text(names, op.operands@[0]);
            let b = value_text(names, op.operands@[1]);
            let r = names[op.results@[0].id];
            let (sum, less) = ("%v"@ + decimal(n), "%v"@ + decimal(n + 1));
            p.saturating(op, SaturatingIntrinsic::UnsignedAdd, names, n) == (Printer {
                out: p.out + ("  "@ + sum + " = "@ + "add"@ + " "@ + t + " "@ + a + ", "@ + b
                    + "\n"@) + ("  "@ + less + " = "@ + "icmp ult"@ + " "@ + t + " "@ + sum
                    + ", "@ + a + "\n"@) + ("  "@ + r + " = select i1 "@ + less + ", "@ + t + " "@
                    + "-1"@ + ", "@ + t + " "@ + sum + "\n"@),
                ..p
            })
        }),
{
    reveal(binary_line);
    reveal(select_line);
    lemma_number_spellings();
    lemma_three_instructions(p, lowered(op, SaturatingIntrinsic::UnsignedAdd, names, n, t, width));
}

/// The lowering of a call.
spec fn lowered(
    op: Operation,
    intrinsic: SaturatingIntrinsic,
    names: Map<u64, Seq<char>>,
    n: nat,
    t: Seq<char>,
    width: u32,
) -> Seq<crate::saturating::Instruction> {
    lowering(
        intrinsic,
        IntType { text: t, width: width as nat },
        value_text(names, op.operands@[0]),
        value_text(names, op.operands@[1]),
        names[op.results@[0].id],
        n,
    )
}

/// A saturating subtraction of unsigned numbers: the difference, whether the left
/// operand is less than the right one, and zero if so.
pub proof fn law_unsigned_subtraction_lines(
    p: Printer,
    op: Operation,
    names: Map<u64, Seq<char>>,
    n: nat,
    t: Seq<char>,
    width: u32,
)
    requires
        p.error is None,
        op.results@.len() == 1 && op.operands@.len() == 2,
        names.contains_key(op.results@[0].id),
        op.results@[0].ty.kind == (TypeKind::Integer { width }),
        op.results@[0].ty.spelled() == Ok::<Seq<char>, Seq<char>>(t),
    ensures
        ({
            let a = value_text(names, op.operands@[0]);
            let b = value_text(names, op.operands@[1]);
            let r = names[op.results@[0].id];
            let (rest, less) = ("%v"@ + decimal(n), "%v"@ + decimal(n + 1));
            p.saturating(op, SaturatingIntrinsic::UnsignedSub, names, n) == (Printer {
                out: p.out + ("  "@ + rest + " = "@ + "sub"@ + " "@ + t + " "@ + a + ", "@ + b
                    + "\n"@) + ("  "@ + less + " = "@ + "icmp ult"@ + " "@ + t + " "@ + a + ", "@
                    + b + "\n"@) + ("  "@ + r + " = select i1 "@ + less + ", "@ + t + " "@ + "0"@
                    + ", "@ + t + " "@ + rest + "\n"@),
                ..p
            })
        }),
{
    reveal(binary_line);
    reveal(select_line);
    lemma_number_spellings();
    lemma_three_instructions(p, lowered(op, SaturatingIntrinsic::UnsignedSub, names, n, t, width));
}

/// A saturating operation on signed numbers: the wrapped value; the signs of both
/// operands and of that value; whether the signs allow an overflow and whether
/// the sign has flipped; and, if both, the limit on the side of the left operand.
pub proof fn law_signed_lines(
    p: Printer,
    op: Operation,
    subtracts: bool,
    names: Map<u64, Seq<char>>,
    n: nat,
    t: Seq<char>,
    width: u32,
)
    requires
        p.error is None,
        op.results@.len() == 1 && op.operands@.len() == 2,
        names.contains_key(op.results@[0].id),
        op.results@[0].ty.kind == (TypeKind::Integer { width }),
        op.results@[0].ty.spelled() == Ok::<Seq<char>, Seq<char>>(t),
        1 <= width <= 128,
    ensures
        ({
            let a = value_text(names, op.operands@[0]);
            let b = value_text(names, op.operands@[1]);
            let r = names[op.results@[0].id];
            let half = pow2((width - 1) as nat);
            let (least, greatest) = ("-"@ + decimal(half), decimal((half - 1) as nat));
            let (v0, v1) = ("%v"@ + decimal(n), "%v"@ + decimal(n + 1));
            let (v2, v3) = ("%v"@ + decimal(n + 2), "%v"@ + decimal(n + 3));
            let (v4, v5) = ("%v"@ + decimal(n + 4), "%v"@ + decimal(n + 5));
            let (v6, v7) = ("%v"@ + decimal(n + 6), "%v"@ + decimal(n + 7));
            let (intrinsic, opcode, relation) = if subtracts {
                (SaturatingIntrinsic::SignedSub, "sub"@, "icmp ne"@)
            } else {
                (SaturatingIntrinsic::SignedAdd, "add"@, "icmp eq"@)
            };
            p.saturating(op, intrinsic, names, n) == (Printer {
                out: p.out + ("  "@ + v0 + " = "@ + opcode + " "@ + t + " "@ + a + ", "@ + b
                    + "\n"@) + ("  "@ + v1 + " = "@ + "icmp slt"@ + " "@ + t + " "@ + a + ", "@
                    + "0"@ + "\n"@) + ("  "@ + v2 + " = "@ + "icmp slt"@ + " "@ + t + " "@ + b
                    + ", "@ + "0"@ + "\n"@) + ("  "@ + v3 + " = "@ + "icmp slt"@ + " "@ + t + " "@
                    + v0 + ", "@ + "0"@ + "\n"@) + ("  "@ + v4 + " = "@ + relation + " "@ + "i1"@
                    + " "@ + v1 + ", "@ + v2 + "\n"@) + ("  "@ + v5 + " = "@ + "icmp ne"@ + " "@
                    + "i1"@ + " "@ + v1 + ", "@ + v3 + "\n"@) + ("  "@ + v6 + " = "@ + "and"@ + " "@
                    + "i1"@ + " "@ + v4 + ", "@ + v5 + "\n"@) + ("  "@ + v7 + " = select i1 "@ + v1
                    + ", "@ + t + " "@ + least + ", "@ + t + " "@ + greatest + "\n"@) + ("  "@ + r
                    + " = select i1 "@ + v6 + ", "@ + t + " "@ + v7 + ", "@ + t + " "@ + v0
                    + "\n"@),
                ..p
            })
        }),
{
    let a = value_text(names, op.operands@[0]);
    let b = value_text(names, op.operands@[1]);
    let r = names[op.results@[0].id];
    let half = pow2((width - 1) as nat);
    let (least, greatest) = ("-"@ + decimal(half), decimal((half - 1) as nat));
    let (v0, v1) = ("%v"@ + decimal(n), "%v"@ + decimal(n + 1));
    let (v2, v3) = ("%v"@ + decimal(n + 2), "%v"@ + decimal(n + 3));
    let (v4, v5) = ("%v"@ + decimal(n + 4), "%v"@ + decimal(n + 5));
    let (v6, v7) = ("%v"@ + decimal(n + 6), "%v"@ + decimal(n + 7));
    let (opcode, relation) = if subtracts {
        ("sub"@, "icmp ne"@)
    } else {
        ("add"@, "icmp eq"@)
    };
    lemma_signed_lines(p, op, subtracts, names, n, t, width);
    lemma_binary_line(v0, opcode, t, a, b);
    lemma_binary_line(v1, "icmp slt"@, t, a, "0"@);
    lemma_binary_line(v2, "icmp slt"@, t, b, "0"@);
    lemma_binary_line(v3, "icmp slt"@, t, v0, "0"@);
    lemma_binary_line(v4, relation, "i1"@, v1, v2);
    lemma_binary_line(v5, "icmp ne"@, "i1"@, v1, v3);
    lemma_binary_line(v6, "and"@, "i1"@, v4, v5);
    lemma_select_line(v7, v1, t, least, greatest);
    lemma_select_line(r, v6, t, v7, v0);
}

/// The text of an instruction with two operands.
proof fn lemma_binary_line(
    dest: Seq<char>,
    opcode: Seq<char>,
    ty: Seq<char>,
    lhs: Seq<char>,
    rhs: Seq<char>,
)
    ensures
        binary_line(dest, opcode, ty, lhs, rhs) == "  "@ + dest + " = "@ + opcode + " "@ + ty + " "@
            + lhs + ", "@ + rhs + "\n"@,
{
    reveal(binary_line);
}

/// The text of a choice.
proof fn lemma_select_line(
    dest: Seq<char>,
    cond: Seq<char>,
    ty: Seq<char>,
    on_true: Seq<char>,
    on_false: Seq<char>,
)
    ensures
        select_line(dest, cond, ty, on_true, on_false) == "  "@ + dest + " = select i1 "@ + cond
            + ", "@ + ty + " "@ + on_true + ", "@ + ty + " "@ + on_false + "\n"@,
{
    reveal(select_line);
}

/// The lines of a saturating operation on signed numbers.
proof fn lemma_signed_lines(
    p: Printer,
    op: Operation,
    subtracts: bool,
    names: Map<u64, Seq<char>>,
    n: nat,
    t: Seq<char>,
    width: u32,
)
    requires
        p.error is None,
        op.results@.len() == 1 && op.operands@.len() == 2,
        names.contains_key(op.results@[0].id),
        op.results@[0].ty.kind == (TypeKind::Integer { width }),
        op.results@[0].ty.spelled() == Ok::<Seq<char>, Seq<char>>(t),
        1 <= width <= 128,
    ensures
        ({
            let a = value_text(names, op.operands@[0]);
            let b = value_text(names, op.operands@[1]);
            let r = names[op.results@[0].id];
            let half = pow2((width - 1) as nat);
            let (least, greatest) = ("-"@ + decimal(half), decimal((half - 1) as nat));
            let (v0, v1) = ("%v"@ + decimal(n), "%v"@ + decimal(n + 1));
            let (v2, v3) = ("%v"@ + decimal(n + 2), "%v"@ + decimal(n + 3));
            let (v4, v5) = ("%v"@ + decimal(n + 4), "%v"@ + decimal(n + 5));
            let (v6, v7) = ("%v"@ + decimal(n + 6), "%v"@ + decimal(n + 7));
            let (intrinsic, opcode, relation) = if subtracts {
                (SaturatingIntrinsic::SignedSub, "sub"@, "icmp ne"@)
            } else {
                (SaturatingIntrinsic::SignedAdd, "add"@, "icmp eq"@)
            };
            p.saturating(op, intrinsic, names, n) == (Printer {
                out: p.out + binary_line(v0, opcode, t, a, b) + binary_line(
                    v1,
                    "icmp slt"@,
                    t,
                    a,
                    "0"@,
                ) + binary_line(v2, "icmp slt"@, t, b, "0"@) + binary_line(
                    v3,
                    "icmp slt"@,
                    t,
                    v0,
                    "0"@,
                ) + binary_line(v4, relation, "i1"@, v1, v2) + binary_line(
                    v5,
                    "icmp ne"@,
                    "i1"@,
                    v1,
                    v3,
                ) + binary_line(v6, "and"@, "i1"@, v4, v5) + select_line(
                    v7,
                    v1,
                    t,
                    least,
                    greatest,
                ) + select_line(r, v6, t, v7, v0),
                ..p
            })
        }),
{
    lemma_number_spellings();
    vstd::arithmetic::power2::lemma_pow2_pos((width - 1) as nat);
    let intrinsic = if subtracts {
        SaturatingIntrinsic::SignedSub
    } else {
        SaturatingIntrinsic::SignedAdd
    };
    lemma_nine_instructions(p, lowered(op, intrinsic, names, n, t, width));
}

/// A call of a saturating intrinsic that cannot be lowered: it has another number
/// of results or operands, its result is not named, is no integer, or has a type
/// that cannot be spelled. Nothing is printed then.
pub proof fn law_saturation_errors(
    p: Printer,
    op: Operation,
    intrinsic: SaturatingIntrinsic,
    names: Map<u64, Seq<char>>,
    n: nat,
)
    requires
        p.error is None,
    ensures
        ({
            let q = p.saturating(op, intrinsic, names, n);
            let ty = op.results@[0].ty;
            if op.results@.len() != 1 || op.operands@.len() != 2 {
                q == (Printer {
                    error: Some(
                        "saturating intrinsic calls must have one result and two operands"@,
                    ),
                    ..p
                })
            } else if !names.contains_key(op.results@[0].id) {
                q == (Printer { error: Some("saturating intrinsic result was not named"@), ..p })
            } else if !(ty.kind is Integer) {
                q == (Printer {
                    error: Some("saturating intrinsic result must be an integer"@),
                    ..p
                })
            } else {
                ty.spelled() is Err ==> q == (Printer { error: Some(ty.spelled()->Err_0), ..p })
            }
        }),
{
}

/// A saturating operation on signed numbers of a width that has no limits of 128
/// bits stops behind the first line.
pub proof fn law_signed_widths(
    p: Printer,
    op: Operation,
    subtracts: bool,
    names: Map<u64, Seq<char>>,
    n: nat,
    t: Seq<char>,
    width: u32,
)
    requires
        p.error is None,
        op.results@.len() == 1 && op.operands@.len() == 2,
        names.contains_key(op.results@[0].id),
        op.results@[0].ty.kind == (TypeKind::Integer { width }),
        op.results@[0].ty.spelled() == Ok::<Seq<char>, Seq<char>>(t),
        width == 0 || width > 128,
    ensures
        ({
            let a = value_text(names, op.operands@[0]);
            let b = value_text(names, op.operands@[1]);
            let (intrinsic, opcode) = if subtracts {
                (SaturatingIntrinsic::SignedSub, "sub"@)
            } else {
                (SaturatingIntrinsic::SignedAdd, "add"@)
            };
            p.saturating(op, intrinsic, names, n) == (Printer {
                out: p.out + ("  "@ + ("%v"@ + decimal(n)) + " = "@ + opcode + " "@ + t + " "@ + a
                    + ", "@ + b + "\n"@),
                error: Some("cannot lower signed saturating intrinsic for i"@ + decimal(
                    width as nat,
                )),
                ..p
            })
        }),
{
    reveal(binary_line);
    let intrinsic = if subtracts {
        SaturatingIntrinsic::SignedSub
    } else {
        SaturatingIntrinsic::SignedAdd
    };
    lemma_one_instruction(p, lowered(op, intrinsic, names, n, t, width));
}

/// The lowering of a signed intrinsic uses eight temporaries and that of an
/// unsigned one two; a call that is not lowered uses none.
pub proof fn law_call_temporaries(
    dialect: Option<NvvmIrDialect>,
    op: Operation,
    names: Map<u64, Seq<char>>,
)
    ensures
        ({
            let r = op.results@[0];
            let lowers = op.results@.len() == 1 && op.operands@.len() == 2 && names.contains_key(
                r.id,
            ) && r.ty.kind is Integer && r.ty.spelled() is Ok;
            call_temporaries(dialect, op, names) == (match lowered_intrinsic(dialect, op.attrs) {
                Some(SaturatingIntrinsic::SignedAdd) if lowers => 8nat,
                Some(SaturatingIntrinsic::SignedSub) if lowers => 8nat,
                Some(SaturatingIntrinsic::UnsignedAdd) if lowers => 2nat,
                Some(SaturatingIntrinsic::UnsignedSub) if lowers => 2nat,
                _ => 0nat,
            })
        }),
{
}

} // verus!
