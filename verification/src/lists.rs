//! Lists in the output: what stands between or in front of their parts.
use vstd::prelude::*;

use crate::calls::{struct_type, type_list};
use crate::ir::{GepIndexAttr, Value};
use crate::state::{value_text, Printer};
use crate::text::decimal;

verus! {

/// Texts one behind the other, with `separator` between every two neighbours.
pub open spec fn joined(separator: Seq<char>, parts: Seq<Seq<char>>) -> Seq<char>
    decreases parts.len(),
{
    if parts.len() == 0 {
        Seq::empty()
    } else if parts.len() == 1 {
        parts[0]
    } else {
        joined(separator, parts.drop_last()) + separator + parts.last()
    }
}

/// Texts one behind the other, each behind `separator`.
pub open spec fn each_behind(separator: Seq<char>, parts: Seq<Seq<char>>) -> Seq<char>
    decreases parts.len(),
{
    if parts.len() == 0 {
        Seq::empty()
    } else {
        each_behind(separator, parts.drop_last()) + separator + parts.last()
    }
}

/// Texts one behind the other.
pub open spec fn concatenated(parts: Seq<Seq<char>>) -> Seq<char>
    decreases parts.len(),
{
    if parts.len() == 0 {
        Seq::empty()
    } else {
        concatenated(parts.drop_last()) + parts.last()
    }
}

/// The spelling of a value's type, a space and the name of the value.
pub open spec fn typed_text(names: Map<u64, Seq<char>>, value: Value) -> Seq<char> {
    value.ty.spelled()->Ok_0 + " "@ + value_text(names, value)
}

/// Values, each as its type and name.
pub open spec fn typed_texts(names: Map<u64, Seq<char>>, values: Seq<Value>) -> Seq<Seq<char>> {
    Seq::new(values.len(), |i: int| typed_text(names, values[i]))
}

/// Numbers in decimal.
pub open spec fn decimals(list: Seq<u32>) -> Seq<Seq<char>> {
    Seq::new(list.len(), |i: int| decimal(list[i] as nat))
}

/// The spellings of the types of values.
pub open spec fn type_texts(values: Seq<Value>) -> Seq<Seq<char>> {
    Seq::new(values.len(), |i: int| values[i].ty.spelled()->Ok_0)
}

/// Indices: a constant as a number of 32 bits, and an operand as its type and
/// name.
pub open spec fn index_texts(
    indices: Seq<GepIndexAttr>,
    operands: Seq<Value>,
    names: Map<u64, Seq<char>>,
) -> Seq<Seq<char>> {
    Seq::new(
        indices.len(),
        |i: int|
            match indices[i] {
                GepIndexAttr::Constant(c) => "i32 "@ + decimal(c as nat),
                GepIndexAttr::OperandIdx(k) => typed_text(names, operands[k as int]),
            },
    )
}

/// A part more puts the separator and the part behind what was there; the first
/// part of a list that is joined has no separator in front of it.
pub proof fn law_lists_grow(separator: Seq<char>, parts: Seq<Seq<char>>, part: Seq<char>)
    ensures
        joined(separator, Seq::empty()) == Seq::<char>::empty(),
        joined(separator, seq![part]) == part,
        parts.len() >= 1 ==> joined(separator, parts.push(part)) == joined(separator, parts)
            + separator + part,
        each_behind(separator, Seq::empty()) == Seq::<char>::empty(),
        each_behind(separator, parts.push(part)) == each_behind(separator, parts) + separator
            + part,
        concatenated(Seq::empty()) == Seq::<char>::empty(),
        concatenated(parts.push(part)) == concatenated(parts) + part,
{
    assert(parts.push(part).drop_last() =~= parts);
    assert(parts.push(part).last() == part);
}

/// What the parts of lists are: of a value its type, a space and its name; of a
/// number its decimal spelling; and of an index either, a constant having 32 bits.
pub proof fn law_parts(
    names: Map<u64, Seq<char>>,
    values: Seq<Value>,
    list: Seq<u32>,
    indices: Seq<GepIndexAttr>,
    i: int,
    k: usize,
)
    ensures
        typed_texts(names, values).len() == values.len(),
        type_texts(values).len() == values.len(),
        0 <= i < values.len() ==> (values[i].ty.spelled() matches Ok(t) ==> typed_texts(
            names,
            values,
        )[i] == t + " "@ + value_text(names, values[i]) && type_texts(values)[i] == t),
        decimals(list).len() == list.len(),
        0 <= i < list.len() ==> decimals(list)[i] == decimal(list[i] as nat),
        index_texts(indices, values, names).len() == indices.len(),
        0 <= i < indices.len() ==> (indices[i] matches GepIndexAttr::Constant(c) ==> index_texts(
            indices,
            values,
            names,
        )[i] == "i32 "@ + decimal(c as nat)),
        0 <= i < indices.len() && indices[i] == GepIndexAttr::OperandIdx(k) ==> (
        values[k as int].ty.spelled() matches Ok(t) ==> index_texts(indices, values, names)[i] == t
            + " "@ + value_text(names, values[k as int])),
{
}

/// Values are printed one by one: the text of one more is that of those in front
/// of it, a comma behind any, and the type and the name of the value.
pub proof fn law_values_are_separated(
    p: Printer,
    names: Map<u64, Seq<char>>,
    values: Seq<Value>,
    k: nat,
)
    ensures
        p.typed_values(names, values, 0) == p,
        ({
            let before = p.typed_values(names, values, k);
            let after = p.typed_values(names, values, k + 1);
            let value = values[k as int];
            let start = if k == 0 {
                before.out
            } else {
                before.out + ", "@
            };
            if before.error is Some {
                after == before
            } else {
                match value.ty.spelled() {
                    Ok(t) => after == (Printer {
                        out: start + t + " "@ + value_text(names, value),
                        ..before
                    }),
                    Err(e) => after == (Printer { out: start, error: Some(e), ..before }),
                }
            }
        }),
{
}

/// Values whose types can all be spelled are joined with commas.
pub proof fn law_values_are_joined(p: Printer, names: Map<u64, Seq<char>>, values: Seq<Value>)
    requires
        p.error is None,
        forall|i: int| 0 <= i < values.len() ==> (#[trigger] values[i]).ty.spelled() is Ok,
    ensures
        p.typed_values(names, values, values.len()) == (Printer {
            out: p.out + joined(", "@, typed_texts(names, values)),
            ..p
        }),
    decreases values.len(),
{
    let parts = typed_texts(names, values);
    if values.len() == 0 {
        assert(p.out =~= p.out + joined(", "@, parts));
    } else {
        let k = (values.len() - 1) as nat;
        let front = values.drop_last();
        let value = values[k as int];
        let t = value.ty.spelled()->Ok_0;
        assert(value.ty.spelled() is Ok);
        assert forall|i: int| 0 <= i < front.len() implies (
        #[trigger] front[i]).ty.spelled() is Ok by {
            assert(front[i] == values[i]);
        }
        law_values_are_joined(p, names, front);
        lemma_values_of_front(p, names, values, k);
        law_values_are_separated(p, names, values, k);
        assert(parts.drop_last() =~= typed_texts(names, front));
        assert(parts.last() == typed_text(names, value));
        let v = value_text(names, value);
        let head = joined(", "@, typed_texts(names, front));
        if k == 0 {
            assert(head =~= Seq::<char>::empty());
            assert(p.out + head + t + " "@ + v =~= p.out + (t + " "@ + v));
        } else {
            assert(p.out + head + ", "@ + t + " "@ + v =~= p.out + (head + ", "@ + (t + " "@ + v)));
        }
    }
}

/// The first values are printed in the same way, whatever follows them.
proof fn lemma_values_of_front(
    p: Printer,
    names: Map<u64, Seq<char>>,
    values: Seq<Value>,
    k: nat,
)
    requires
        k < values.len(),
    ensures
        p.typed_values(names, values, k) == p.typed_values(names, values.drop_last(), k),
    decreases k,
{
    if k > 0 {
        lemma_values_of_front(p, names, values, (k - 1) as nat);
        assert(values.drop_last()[k - 1] == values[k - 1]);
    }
}

/// Of values whose types cannot all be spelled, those in front of the first such
/// value are printed, and its message is the error.
pub proof fn law_values_stop(
    p: Printer,
    names: Map<u64, Seq<char>>,
    values: Seq<Value>,
    k: int,
)
    requires
        p.error is None,
        0 <= k < values.len(),
        forall|i: int| 0 <= i < k ==> (#[trigger] values[i]).ty.spelled() is Ok,
        values[k].ty.spelled() is Err,
    ensures
        p.typed_values(names, values, values.len()) == (Printer {
            out: p.out + joined(", "@, typed_texts(names, values.take(k))) + (if k == 0 {
                Seq::empty()
            } else {
                ", "@
            }),
            error: Some(values[k].ty.spelled()->Err_0),
            ..p
        }),
    decreases values.len(),
{
    let m = (values.len() - 1) as nat;
    let front = values.drop_last();
    assert(front.take(k) =~= values.take(k));
    lemma_values_of_front(p, names, values, m);
    law_values_are_separated(p, names, values, m);
    if k < m {
        assert forall|i: int| 0 <= i < k implies (#[trigger] front[i]).ty.spelled() is Ok by {
            assert(front[i] == values[i]);
        }
        law_values_stop(p, names, front, k);
    } else {
        assert(values.take(k) =~= front);
        assert forall|i: int| 0 <= i < front.len() implies (
        #[trigger] front[i]).ty.spelled() is Ok by {
            assert(front[i] == values[i]);
        }
        law_values_are_joined(p, names, front);
        let start = p.out + joined(", "@, typed_texts(names, front));
        assert(start + Seq::<char>::empty() =~= start);
    }
}

/// Numbers are printed in decimal, each behind a comma.
pub proof fn law_numbers_are_listed(p: Printer, list: Seq<u32>, k: nat)
    requires
        p.error is None,
        k <= list.len(),
    ensures
        p.numbers(list, k) == (Printer {
            out: p.out + each_behind(", "@, decimals(list.take(k as int))),
            ..p
        }),
    decreases k,
{
    let parts = decimals(list.take(k as int));
    if k == 0 {
        assert(p.out =~= p.out + each_behind(", "@, parts));
    } else {
        law_numbers_are_listed(p, list, (k - 1) as nat);
        let d = decimal(list[k - 1] as nat);
        assert(parts.drop_last() =~= decimals(list.take(k - 1)));
        assert(parts.last() == d);
        let head = each_behind(", "@, decimals(list.take(k - 1)));
        assert(p.out + head + ", "@ + d =~= p.out + (head + ", "@ + d));
    }
}

/// Indices are printed one by one, each behind a comma: a constant as a number of
/// 32 bits, and an operand, whichever it is, as its own type and name.
pub proof fn law_indices_are_separated(
    p: Printer,
    indices: Seq<GepIndexAttr>,
    operands: Seq<Value>,
    names: Map<u64, Seq<char>>,
    k: nat,
)
    ensures
        p.gep_indices(indices, operands, names, 0) == p,
        ({
            let before = p.gep_indices(indices, operands, names, k);
            let after = p.gep_indices(indices, operands, names, k + 1);
            if before.error is Some {
                after == before
            } else {
                match indices[k as int] {
                    GepIndexAttr::Constant(c) => after == (Printer {
                        out: before.out + ", "@ + "i32 "@ + decimal(c as nat),
                        ..before
                    }),
                    GepIndexAttr::OperandIdx(i) => match operands[i as int].ty.spelled() {
                        Ok(t) => after == (Printer {
                            out: before.out + ", "@ + t + " "@ + value_text(
                                names,
                                operands[i as int],
                            ),
                            ..before
                        }),
                        Err(e) => after == (Printer {
                            out: before.out + ", "@,
                            error: Some(e),
                            ..before
                        }),
                    },
                }
            }
        }),
{
}

/// Whether the types of the operands that indices refer to can be spelled.
pub open spec fn indices_spelled(indices: Seq<GepIndexAttr>, operands: Seq<Value>) -> bool {
    forall|i: int|
        0 <= i < indices.len() ==> (#[trigger] indices[i] matches GepIndexAttr::OperandIdx(k)
            ==> operands[k as int].ty.spelled() is Ok)
}

/// Indices whose types can all be spelled are listed in order.
pub proof fn law_indices_are_listed(
    p: Printer,
    indices: Seq<GepIndexAttr>,
    operands: Seq<Value>,
    names: Map<u64, Seq<char>>,
    k: nat,
)
    requires
        p.error is None,
        k <= indices.len(),
        indices_spelled(indices.take(k as int), operands),
    ensures
        p.gep_indices(indices, operands, names, k) == (Printer {
            out: p.out + each_behind(
                ", "@,
                index_texts(indices.take(k as int), operands, names),
            ),
            ..p
        }),
    decreases k,
{
    let parts = index_texts(indices.take(k as int), operands, names);
    if k == 0 {
        assert(p.out =~= p.out + each_behind(", "@, parts));
    } else {
        assert(indices_spelled(indices.take(k - 1), operands)) by {
            assert forall|i: int| 0 <= i < k - 1 implies (#[trigger] indices.take(
                k - 1,
            )[i] matches GepIndexAttr::OperandIdx(o) ==> operands[o as int].ty.spelled() is Ok) by {
                assert(indices.take(k as int)[i] == indices.take(k - 1)[i]);
            }
        }
        law_indices_are_listed(p, indices, operands, names, (k - 1) as nat);
        law_indices_are_separated(p, indices, operands, names, (k - 1) as nat);
        let index = indices[k - 1];
        assert(indices.take(k as int)[k - 1] == index);
        assert(parts.drop_last() =~= index_texts(indices.take(k - 1), operands, names));
        let head = each_behind(", "@, index_texts(indices.take(k - 1), operands, names));
        match index {
            GepIndexAttr::Constant(c) => {
                let d = decimal(c as nat);
                assert(parts.last() == "i32 "@ + d);
                assert(p.out + head + ", "@ + "i32 "@ + d =~= p.out + (head + ", "@ + ("i32 "@
                    + d)));
            },
            GepIndexAttr::OperandIdx(i) => {
                let t = operands[i as int].ty.spelled()->Ok_0;
                let v = value_text(names, operands[i as int]);
                assert(parts.last() == t + " "@ + v);
                assert(p.out + head + ", "@ + t + " "@ + v =~= p.out + (head + ", "@ + (t + " "@
                    + v)));
            },
        }
    }
}

/// The type of a structure of values is made of their types, joined with commas,
/// in braces.
pub proof fn law_structures_join_types(values: Seq<Value>)
    requires
        forall|i: int| 0 <= i < values.len() ==> (#[trigger] values[i]).ty.spelled() is Ok,
    ensures
        struct_type(values) == Ok::<Seq<char>, Seq<char>>(
            "{"@ + joined(", "@, type_texts(values)) + "}"@,
        ),
{
    lemma_type_list(values, values.len());
    assert(values.take(values.len() as int) =~= values);
}

/// Types are joined with commas.
proof fn lemma_type_list(values: Seq<Value>, k: nat)
    requires
        k <= values.len(),
        forall|i: int| 0 <= i < values.len() ==> (#[trigger] values[i]).ty.spelled() is Ok,
    ensures
        type_list(values, k) == Ok::<Seq<char>, Seq<char>>(
            joined(", "@, type_texts(values.take(k as int))),
        ),
    decreases k,
{
    if k > 0 {
        lemma_type_list(values, (k - 1) as nat);
        let parts = type_texts(values.take(k as int));
        let t = values[k - 1].ty.spelled()->Ok_0;
        assert(values[k - 1].ty.spelled() is Ok);
        assert(parts.drop_last() =~= type_texts(values.take(k - 1)));
        assert(parts.last() == t);
        if k == 1 {
            assert(Seq::<char>::empty() + t =~= t);
        }
    }
}

/// The type of a structure of values whose types cannot all be spelled fails with
/// the message of the first that cannot.
pub proof fn law_structures_stop(values: Seq<Value>, k: int, m: nat)
    requires
        0 <= k < m <= values.len(),
        forall|i: int| 0 <= i < k ==> (#[trigger] values[i]).ty.spelled() is Ok,
        values[k].ty.spelled() is Err,
    ensures
        type_list(values, m) == Err::<Seq<char>, Seq<char>>(values[k].ty.spelled()->Err_0),
        m == values.len() ==> struct_type(values) == Err::<Seq<char>, Seq<char>>(
            values[k].ty.spelled()->Err_0,
        ),
    decreases m,
{
    if k < m - 1 {
        law_structures_stop(values, k, (m - 1) as nat);
    } else {
        let front = values.take(k);
        assert forall|i: int| 0 <= i < front.len() implies (
        #[trigger] front[i]).ty.spelled() is Ok by {
            assert(front[i] == values[i]);
        }
        lemma_type_list(front, k as nat);
        lemma_type_list_of_front(values, k as nat, k as nat);
    }
}

/// The first types are listed in the same way, whatever follows them.
proof fn lemma_type_list_of_front(values: Seq<Value>, m: nat, k: nat)
    requires
        k <= m <= values.len(),
    ensures
        type_list(values, k) == type_list(values.take(m as int), k),
    decreases k,
{
    if k > 0 {
        lemma_type_list_of_front(values, m, (k - 1) as nat);
        assert(values.take(m as int)[k - 1] == values[k - 1]);
    }
}

} // verus!
