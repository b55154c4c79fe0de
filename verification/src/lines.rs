//! The lines that operations are printed as.
//!
//! Each law gives the whole of what an export makes of an operation: the text
//! that is added to the output, in terms of names, spellings and numbers, what
//! else changes, and, where a type cannot be spelled, the error and how far the
//! output has come. Whatever a law does not mention is as it was.
use vstd::prelude::*;

use crate::ir::{OpAttrs, Operation};
use crate::lists::{decimals, each_behind, law_numbers_are_listed};
use crate::state::{typed_pointers, value_text, Printer};
use crate::text::decimal;

verus! {

/// An operation on two values.
pub proof fn law_binary_line(
    p: Printer,
    mnemonic: Seq<char>,
    op: Operation,
    names: Map<u64, Seq<char>>,
)
    requires
        p.error is None,
    ensures
        ({
            let q = p.binop(mnemonic, op, names);
            let (a, b) = (op.operands@[0], op.operands@[1]);
            let begun = p.out + "  "@ + names[op.results@[0].id] + " = "@ + mnemonic + " "@;
            match a.ty.spelled() {
                Ok(t) => q == (Printer {
                    out: begun + t + " "@ + value_text(names, a) + ", "@ + value_text(names, b)
                        + "\n"@,
                    ..p
                }),
                Err(e) => q == (Printer { out: begun, error: Some(e), ..p }),
            }
        }),
{
}

/// A floating-point negation; with typed pointers it is a subtraction from
/// negative zero.
pub proof fn law_negation_line(p: Printer, op: Operation, names: Map<u64, Seq<char>>)
    requires
        p.error is None,
    ensures
        ({
            let q = p.fneg(op, names);
            let a = op.operands@[0];
            let defined = p.out + "  "@ + names[op.results@[0].id] + " = "@;
            match (a.ty.spelled(), typed_pointers(p.dialect)) {
                (Ok(t), false) => q == (Printer {
                    out: defined + "fneg"@ + " "@ + t + " "@ + value_text(names, a) + "\n"@,
                    ..p
                }),
                (Ok(t), true) => q == (Printer {
                    out: defined + "fsub"@ + " "@ + t + " -0.000000e+00, "@ + value_text(names, a)
                        + "\n"@,
                    ..p
                }),
                (Err(e), false) => q == (Printer {
                    out: defined + "fneg"@ + " "@,
                    error: Some(e),
                    ..p
                }),
                (Err(e), true) => q == (Printer {
                    out: defined + "fsub"@ + " "@,
                    error: Some(e),
                    ..p
                }),
            }
        }),
{
}

/// A comparison: its mnemonic, its predicate, and what is compared.
pub proof fn law_comparison_line(
    p: Printer,
    mnemonic: Seq<char>,
    predicate: Seq<char>,
    op: Operation,
    names: Map<u64, Seq<char>>,
)
    requires
        p.error is None,
    ensures
        ({
            let q = p.comparison(mnemonic, predicate, op, names);
            let (a, b) = (op.operands@[0], op.operands@[1]);
            let begun = p.out + "  "@ + names[op.results@[0].id] + " = "@ + mnemonic + " "@
                + predicate + " "@;
            match a.ty.spelled() {
                Ok(t) => q == (Printer {
                    out: begun + t + " "@ + value_text(names, a) + ", "@ + value_text(names, b)
                        + "\n"@,
                    ..p
                }),
                Err(e) => q == (Printer { out: begun, error: Some(e), ..p }),
            }
        }),
{
}

/// A choice: the truth value, what is chosen where it is true, and what where it
/// is false.
pub proof fn law_select_line(p: Printer, op: Operation, names: Map<u64, Seq<char>>)
    requires
        p.error is None,
    ensures
        ({
            let q = p.select(op, names);
            let (c, a, b) = (op.operands@[0], op.operands@[1], op.operands@[2]);
            let begun = p.out + "  "@ + names[op.results@[0].id] + " = "@ + "select i1"@ + " "@
                + value_text(names, c) + ", "@;
            match a.ty.spelled() {
                Ok(t) => q == (Printer {
                    out: begun + t + " "@ + value_text(names, a) + ", "@ + t + " "@ + value_text(
                        names,
                        b,
                    ) + "\n"@,
                    ..p
                }),
                Err(e) => q == (Printer { out: begun, error: Some(e), ..p }),
            }
        }),
{
}

/// A cast: the value behind the type that it is cast from, and the type that it
/// is cast to. With typed pointers a pointer is cast from the type that it is
/// defined with, and the type of a result that is a pointer is recorded.
pub proof fn law_cast_line(
    p: Printer,
    mnemonic: Seq<char>,
    op: Operation,
    names: Map<u64, Seq<char>>,
)
    requires
        p.error is None,
    ensures
        ({
            let q = p.cast(mnemonic, op, names);
            let (a, r) = (op.operands@[0], op.results@[0]);
            let begun = p.out + "  "@ + names[r.id] + " = "@ + mnemonic + " "@;
            let from = if typed_pointers(p.dialect) && a.ty.kind is Pointer
                && p.pointer_types.contains_key(a.id) {
                Ok(p.pointer_types[a.id])
            } else {
                a.ty.spelled()
            };
            match (from, r.ty.spelled()) {
                (Err(e), _) => q == (Printer { out: begun, error: Some(e), ..p }),
                (Ok(f), Err(e)) => q == (Printer {
                    out: begun + f + " "@ + value_text(names, a) + " to "@,
                    error: Some(e),
                    ..p
                }),
                (Ok(f), Ok(t)) => q == (Printer {
                    out: begun + f + " "@ + value_text(names, a) + " to "@ + t + "\n"@,
                    pointer_types: if typed_pointers(p.dialect) && r.ty.kind is Pointer {
                        p.pointer_types.insert(r.id, t)
                    } else {
                        p.pointer_types
                    },
                    ..p
                }),
            }
        }),
{
}

/// A zero extension, with its flag where it has one that is set.
pub proof fn law_zero_extension_line(p: Printer, op: Operation, names: Map<u64, Seq<char>>)
    requires
        p.error is None,
    ensures
        ({
            let q = p.zext(op, names);
            let (a, r) = (op.operands@[0], op.results@[0]);
            let plain = p.out + "  "@ + names[r.id] + " = "@ + "zext"@ + " "@;
            let begun = if op.attrs matches OpAttrs::ZExt { nneg: Some(true) } {
                plain + "nneg "@
            } else {
                plain
            };
            match (a.ty.spelled(), r.ty.spelled()) {
                (Err(e), _) => q == (Printer { out: begun, error: Some(e), ..p }),
                (Ok(f), Err(e)) => q == (Printer {
                    out: begun + f + " "@ + value_text(names, a) + " to "@,
                    error: Some(e),
                    ..p
                }),
                (Ok(f), Ok(t)) => q == (Printer {
                    out: begun + f + " "@ + value_text(names, a) + " to "@ + t + "\n"@,
                    ..p
                }),
            }
        }),
{
}

/// The extraction of a part of an aggregate: the aggregate, and the indices in
/// order.
pub proof fn law_extraction_line(p: Printer, op: Operation, names: Map<u64, Seq<char>>)
    requires
        p.error is None,
    ensures
        ({
            let q = p.extract_value(op, names);
            let a = op.operands@[0];
            let begun = p.out + "  "@ + names[op.results@[0].id] + " = "@ + "extractvalue"@ + " "@;
            match a.ty.spelled() {
                Ok(t) => q == (Printer {
                    out: begun + t + " "@ + value_text(names, a) + each_behind(
                        ", "@,
                        decimals(op.attrs->Indices_0@),
                    ) + "\n"@,
                    ..p
                }),
                Err(e) => q == (Printer { out: begun, error: Some(e), ..p }),
            }
        }),
{
    broadcast use crate::state::lemma_numbers_stopped;

    let a = op.operands@[0];
    let list = op.attrs->Indices_0@;
    let begun = p.definition(names, op.results@[0], "extractvalue"@).typed_value(names, a);
    if a.ty.spelled() is Ok {
        law_numbers_are_listed(begun, list, list.len());
        assert(list.take(list.len() as int) =~= list);
    }
}

/// The insertion of a value into an aggregate: the aggregate, the value behind
/// its own type, and the indices in order. With typed pointers, a pointer that is
/// defined with another type is cast first, and inserted under the name of the
/// cast.
pub proof fn law_insertion_line(p: Printer, op: Operation, names: Map<u64, Seq<char>>)
    requires
        p.error is None,
    ensures
        ({
            let q = p.insert_value(op, names);
            let (a, v) = (op.operands@[0], op.operands@[1]);
            let defined = p.pointer_types[v.id];
            let casts = typed_pointers(p.dialect) && v.ty.kind is Pointer
                && p.pointer_types.contains_key(v.id) && v.ty.spelled() != Ok::<
                Seq<char>,
                Seq<char>,
            >(defined);
            let cast = "%ptrcast"@ + decimal(p.next_cast);
            match v.ty.spelled() {
                Err(e) => q == (Printer { error: Some(e), ..p }),
                Ok(slot) => {
                    let name = if casts {
                        cast
                    } else {
                        value_text(names, v)
                    };
                    let start = if casts {
                        p.out + "  "@ + cast + " = "@ + "bitcast"@ + " "@ + defined + " "@
                            + value_text(names, v) + " to "@ + slot + "\n"@
                    } else {
                        p.out
                    };
                    let next_cast = if casts {
                        p.next_cast + 1
                    } else {
                        p.next_cast
                    };
                    let begun = start + "  "@ + names[op.results@[0].id] + " = "@ + "insertvalue"@
                        + " "@;
                    match a.ty.spelled() {
                        Ok(t) => q == (Printer {
                            out: begun + t + " "@ + value_text(names, a) + ", "@ + slot + " "@
                                + name + each_behind(", "@, decimals(op.attrs->Indices_0@))
                                + "\n"@,
                            next_cast,
                            ..p
                        }),
                        Err(e) => q == (Printer { out: begun, error: Some(e), next_cast, ..p }),
                    }
                },
            }
        }),
{
    broadcast use crate::state::lemma_numbers_stopped;

    let (a, v) = (op.operands@[0], op.operands@[1]);
    let list = op.attrs->Indices_0@;
    if let Ok(slot) = v.ty.spelled() {
        let begun = p.coerce_pointer(names, v, slot).definition(
            names,
            op.results@[0],
            "insertvalue"@,
        ).typed_value(names, a).text(", "@).text(slot).text(" "@).text(
            p.coerced_name(names, v, slot),
        );
        if a.ty.spelled() is Ok {
            law_numbers_are_listed(begun, list, list.len());
            assert(list.take(list.len() as int) =~= list);
        }
    }
}

/// A return of the first operand, or of nothing.
pub proof fn law_return_line(p: Printer, op: Operation, names: Map<u64, Seq<char>>)
    requires
        p.error is None,
    ensures
        ({
            let q = p.ret(op, names);
            let begun = p.out + "  ret "@;
            if op.operands@.len() == 0 {
                q == (Printer { out: begun + "void"@ + "\n"@, ..p })
            } else {
                let a = op.operands@[0];
                match a.ty.spelled() {
                    Ok(t) => q == (Printer {
                        out: begun + t + " "@ + value_text(names, a) + "\n"@,
                        ..p
                    }),
                    Err(e) => q == (Printer { out: begun, error: Some(e), ..p }),
                }
            }
        }),
{
}

/// A jump to the label of the first successor.
pub proof fn law_jump_line(p: Printer, op: Operation, labels: Map<u64, Seq<char>>)
    requires
        p.error is None,
    ensures
        ({
            let q = p.br(op, labels);
            let to = op.successors@[0];
            &&& labels.contains_key(to) ==> q == (Printer {
                out: p.out + "  br label %"@ + labels[to] + "\n"@,
                ..p
            })
            &&& !labels.contains_key(to) ==> q == (Printer {
                error: Some("Missing block label"@),
                ..p
            })
        }),
{
}

/// A jump to the first successor where the operand is true, and to the second
/// one where it is false.
pub proof fn law_conditional_jump_line(
    p: Printer,
    op: Operation,
    names: Map<u64, Seq<char>>,
    labels: Map<u64, Seq<char>>,
)
    requires
        p.error is None,
    ensures
        ({
            let q = p.cond_br(op, names, labels);
            let (yes, no) = (op.successors@[0], op.successors@[1]);
            match (labels.contains_key(yes), labels.contains_key(no)) {
                (true, true) => q == (Printer {
                    out: p.out + "  br i1 "@ + value_text(names, op.operands@[0]) + ", label %"@
                        + labels[yes] + ", label %"@ + labels[no] + "\n"@,
                    ..p
                }),
                (true, false) => q == (Printer { error: Some("Missing false label"@), ..p }),
                (false, _) => q == (Printer { error: Some("Missing true label"@), ..p }),
            }
        }),
{
}

/// A fence: its synchronization scope, a space and its ordering.
pub proof fn law_fence_line(p: Printer, op: Operation)
    requires
        p.error is None,
    ensures
        p.fence(op) == (Printer {
            out: p.out + "  fence"@ + op.attrs->Atomic_syncscope@ + " "@
                + op.attrs->Atomic_ordering@ + "\n"@,
            ..p
        }),
{
}

/// An allocation: the type of the element, which its result is then known to
/// point to.
pub proof fn law_allocation_line(p: Printer, op: Operation, names: Map<u64, Seq<char>>)
    requires
        p.error is None,
    ensures
        ({
            let q = p.alloca(op, names);
            let r = op.results@[0];
            let begun = p.out + "  "@ + names[r.id] + " = "@ + "alloca"@ + " "@;
            match op.attrs->Alloca_element_type.spelled() {
                Ok(t) => q == (Printer {
                    out: begun + t + "\n"@,
                    pointer_types: p.pointer_types.insert(r.id, t + "*"@),
                    ..p
                }),
                Err(e) => q == (Printer { out: begun, error: Some(e), ..p }),
            }
        }),
{
}

} // verus!
