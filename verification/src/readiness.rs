//! Whether an operation can be exported, as a question that can be asked
//! beforehand.
use std::collections::HashMap;
use vstd::prelude::*;

use crate::constants::names_symbol;
use crate::ir::{CallOpCallable, ConstantAttr, GepIndexAttr, OpAttrs, Operation};
use crate::ir::{addrspace_of, Spelling, Type, TypeKind, Value};
use crate::llvm_op::{lemma_of_no_type, lemma_of_type, LlvmOp};
use crate::memory::{index_exists, index_spelled, indices_exist};
use crate::ops::{casts_fit, exportable, named_results, registered, temporaries};
use crate::saturating::SaturatingIntrinsic;
use crate::state::{temp_name, typed_pointers, ModuleExportState};
use crate::text::{characters, has_prefix, texts};

verus! {

broadcast use {
    vstd::std_specs::hash::group_hash_axioms,
    crate::text::lemma_texts_insert,
    crate::text::lemma_texts,
};

/// Whether one of the first `k` results is the value `id`.
spec fn among(results: Seq<Value>, k: nat, id: u64) -> bool {
    exists|j: int| 0 <= j < k && (#[trigger] results[j]).id == id
}

/// What is named behind the naming of results: what was named, and the results.
proof fn lemma_named(names: Map<u64, Seq<char>>, results: Seq<Value>, n: nat, k: nat)
    requires
        k <= results.len(),
    ensures
        forall|id: u64| #[trigger]
            named_results(names, results, n, k).0.contains_key(id) == (names.contains_key(id)
                || among(results, k, id)),
        forall|id: u64| #[trigger]
            names.contains_key(id) ==> named_results(names, results, n, k).0[id] == names[id],
        forall|id: u64|
            among(results, k, id) && !names.contains_key(id) ==> exists|m: nat|
                named_results(names, results, n, k).0[id] == #[trigger] temp_name(m),
        n <= named_results(names, results, n, k).1 <= n + k,
    decreases k,
{
    if k > 0 {
        lemma_named(names, results, n, (k - 1) as nat);
        let (before, next) = named_results(names, results, n, (k - 1) as nat);
        let after = named_results(names, results, n, k).0;
        assert forall|id: u64|
            among(results, k, id) == (among(results, (k - 1) as nat, id) || results[k - 1].id
                == id) by {
            if results[k - 1].id == id {
                assert(among(results, k, id));
            }
            if among(results, (k - 1) as nat, id) {
                let j = choose|j: int| 0 <= j < k - 1 && (#[trigger] results[j]).id == id;
                assert(results[j].id == id);
            }
        }
        assert forall|id: u64| among(results, k, id) && !names.contains_key(id) implies exists|
            m: nat,
        | after[id] == #[trigger] temp_name(m) by {
            if before.contains_key(id) {
                let m = choose|m: nat| before[id] == #[trigger] temp_name(m);
                assert(after[id] == temp_name(m));
            } else {
                assert(after[id] == temp_name(next));
            }
        }
    }
}

/// Whether one of the first `k` results is the value `id`.
fn is_among(results: &Vec<Value>, k: usize, id: u64) -> (r: bool)
    requires
        k <= results@.len(),
    ensures
        r == among(results@, k as nat, id),
{
    for j in 0..k
        invariant
            k <= results@.len(),
            !among(results@, j as nat, id),
    {
        if results[j].id == id {
            assert(results@[j as int].id == id);
            return true;
        }
    }
    false
}

/// The number of the next temporary behind the naming of results.
fn next_behind(op: &Operation, value_names: &HashMap<u64, String>, next_value_id: usize) -> (r:
    u128)
    ensures
        r == registered(texts(value_names@), *op, next_value_id).1,
{
    let ghost names = texts(value_names@);
    let ghost n = next_value_id as nat;
    let results = &op.results;
    let mut next: u128 = next_value_id as u128;
    for i in 0..results.len()
        invariant
            results@ == op.results@,
            names == texts(value_names@),
            next == named_results(names, results@, n, i as nat).1,
            next <= next_value_id + i,
    {
        proof {
            lemma_named(names, results@, n, i as nat);
        }
        let id = results[i].id;
        if !value_names.contains_key(&id) && !is_among(results, i, id) {
            next = next + 1;
        }
    }
    next
}

/// Whether the indices of an address computation refer to operands that exist,
/// up to the first one whose type cannot be spelled.
fn have_operands(indices: &Vec<GepIndexAttr>, operands: &Vec<Value>) -> (r: bool)
    ensures
        r == indices_exist(indices@, operands@),
{
    for i in 0..indices.len()
        invariant
            forall|j: int| 0 <= j < i ==> index_spelled(#[trigger] indices@[j], operands@),
    {
        match indices[i] {
            GepIndexAttr::OperandIdx(k) => {
                if k >= operands.len() {
                    assert(!index_exists(indices@[i as int], operands@));
                    return false;
                }
                if !matches!(operands[k].ty.spelling, Spelling::Text(_)) {
                    assert(!index_spelled(indices@[i as int], operands@));
                    assert forall|m: int|
                        0 <= m < indices@.len() && (forall|j: int|
                            0 <= j < m ==> index_spelled(
                                #[trigger] indices@[j],
                                operands@,
                            )) implies index_exists(#[trigger] indices@[m], operands@) by {
                        if m > i {
                            assert(index_spelled(indices@[i as int], operands@));
                        } else if m < i {
                            assert(index_spelled(indices@[m], operands@));
                        }
                    }
                    return true;
                }
            },
            GepIndexAttr::Constant(_) => {},
        }
    }
    assert forall|m: int| 0 <= m < indices@.len() implies index_exists(
        #[trigger] indices@[m],
        operands@,
    ) by {
        assert(index_spelled(indices@[m], operands@));
    }
    true
}

/// Whether the type of a value can be spelled.
fn is_spelled(value: &Value) -> (r: bool)
    ensures
        r == value.ty.spelled() is Ok,
{
    matches!(value.ty.spelling, Spelling::Text(_))
}

/// Whether the typed pointer type of a pointer value is known, where one is
/// needed.
fn has_pointer_type(state: &ModuleExportState, value: &Value) -> (r: bool)
    ensures
        r == (typed_pointers(state.nvvm_ir_dialect) ==> state.printer(
            Seq::empty(),
            None,
        ).pointer_value_type(*value) is Ok),
{
    !state.has_typed_pointers() || state.pointer_value_type(value).is_ok()
}

/// Whether a pointer can be used as a typed pointer to `pointee`.
fn can_use_pointer(state: &ModuleExportState, ptr: &Value, pointee: &Type) -> (r: bool)
    ensures
        r == state.can_use(*ptr, *pointee, ptr.ty.address_space()),
{
    if state.next_pointer_cast_id < usize::MAX || !state.has_typed_pointers() {
        return true;
    }
    let addrspace = addrspace_of(&ptr.ty);
    match (state.pointer_type_for_pointee(pointee, addrspace), state.pointer_value_type(ptr)) {
        (Ok(desired), Ok(current)) => current == desired,
        _ => true,
    }
}

/// Whether a value can be inserted into a slot of its erased type.
fn can_insert_value(state: &ModuleExportState, value: &Value) -> (r: bool)
    ensures
        r == (value.ty.spelled() matches Ok(slot) ==> state.can_coerce(*value, slot)),
{
    if state.next_pointer_cast_id < usize::MAX || !state.has_typed_pointers() || !matches!(
        value.ty.kind,
        TypeKind::Pointer { address_space: _ }
    ) {
        return true;
    }
    match (state.type_to_string(&value.ty), state.pointer_value_type(value)) {
        (Ok(slot), Ok(current)) => current == slot,
        _ => true,
    }
}

/// Whether the export of a complete operation finds a number for the pointer
/// cast that it makes, if it makes one.
fn has_cast_number(
    state: &ModuleExportState,
    kind: LlvmOp,
    op: &Operation,
    Ghost(names): Ghost<Map<u64, Seq<char>>>,
    Ghost(labels): Ghost<Map<u64, Seq<char>>>,
) -> (r: bool)
    requires
        LlvmOp::of_type(op.op_type@) == Some(kind),
        exportable(*state, *op, names, labels),
    ensures
        r == casts_fit(*state, *op),
{
    match kind {
        LlvmOp::Load | LlvmOp::AtomicLoad => can_use_pointer(
            state,
            &op.operands[0],
            &op.results[0].ty,
        ),
        LlvmOp::Store | LlvmOp::AtomicStore => can_use_pointer(
            state,
            &op.operands[1],
            &op.operands[0].ty,
        ),
        LlvmOp::GetElementPtr => match &op.attrs {
            OpAttrs::GetElementPtr { source_type, indices: _, indexed_type: _ } => can_use_pointer(
                state,
                &op.operands[0],
                source_type,
            ),
            _ => true,
        },
        LlvmOp::AtomicRmw | LlvmOp::AtomicCmpxchg => can_use_pointer(
            state,
            &op.operands[0],
            &op.operands[1].ty,
        ),
        LlvmOp::InsertValue => can_insert_value(state, &op.operands[1]),
        _ => true,
    }
}

/// Whether the first result of an operation was named by a global symbol.
fn is_symbol(op: &Operation, value_names: &HashMap<u64, String>) -> (r: bool)
    ensures
        r == (op.results@.len() >= 1 && names_symbol(texts(value_names@), op.results@[0].id)),
{
    if op.results.len() == 0 {
        return false;
    }
    match value_names.get(&op.results[0].id) {
        Some(name) => has_prefix(&characters(name.as_str()), &characters("@")),
        None => false,
    }
}

/// A value that gets its name from the naming of results has no symbol.
proof fn lemma_symbols(names: Map<u64, Seq<char>>, op: Operation, n: usize)
    requires
        op.results@.len() >= 1,
    ensures
        names_symbol(registered(names, op, n).0, op.results@[0].id) == names_symbol(
            names,
            op.results@[0].id,
        ),
        registered(names, op, n).0.contains_key(op.results@[0].id),
{
    let id = op.results@[0].id;
    let named = registered(names, op, n).0;
    lemma_named(names, op.results@, n as nat, op.results@.len());
    assert(among(op.results@, op.results@.len(), id));
    if !names.contains_key(id) {
        let m = choose|m: nat| named[id] == #[trigger] temp_name(m);
        reveal_strlit("%v");
        reveal_strlit("@");
        assert(temp_name(m).take(1)[0] == '%');
    }
}

/// The saturating intrinsic that a call is lowered from, if it is one.
fn intrinsic_of(state: &ModuleExportState, op: &Operation) -> (r: Option<SaturatingIntrinsic>)
    ensures
        r == crate::calls::lowered_intrinsic(state.nvvm_ir_dialect, op.attrs),
{
    if let OpAttrs::Call { callee, result_type: _, convergent: _ } = &op.attrs {
        if let CallOpCallable::Direct { name, device_name } = callee {
            if state.has_typed_pointers() {
                let called = crate::calls::callee_name_of(name, device_name);
                return SaturatingIntrinsic::from_name(called.as_str());
            }
        }
    }
    None
}

/// The number of temporaries that the export of an operation uses.
fn temporaries_of(state: &ModuleExportState, kind: LlvmOp, op: &Operation) -> (r: u128)
    requires
        LlvmOp::of_type(op.op_type@) == Some(kind),
    ensures
        forall|names: Map<u64, Seq<char>>|
            (op.results@.len() >= 1 ==> names.contains_key(op.results@[0].id)) ==> r
                == #[trigger] temporaries(state.nvvm_ir_dialect, *op, names),
{
    if !matches!(kind, LlvmOp::Call) {
        return 0;
    }
    match intrinsic_of(state, op) {
        Some(intrinsic) => {
            if op.results.len() != 1 || op.operands.len() != 2 {
                return 0;
            }
            let ty = &op.results[0].ty;
            if !matches!(ty.kind, TypeKind::Integer { width: _ }) || !matches!(
                ty.spelling,
                Spelling::Text(_)
            ) {
                return 0;
            }
            match intrinsic {
                SaturatingIntrinsic::SignedAdd | SaturatingIntrinsic::SignedSub => 8,
                SaturatingIntrinsic::UnsignedAdd | SaturatingIntrinsic::UnsignedSub => 2,
            }
        },
        None => 0,
    }
}

/// Whether an operation has the operands, results, successors and attributes
/// that its export reads.
fn is_complete(
    state: &ModuleExportState,
    kind: LlvmOp,
    op: &Operation,
    value_names: &HashMap<u64, String>,
    next_value_id: usize,
    block_labels: &HashMap<u64, String>,
) -> (r: bool)
    requires
        LlvmOp::of_type(op.op_type@) == Some(kind),
    ensures
        r == exportable(
            *state,
            *op,
            registered(texts(value_names@), *op, next_value_id).0,
            texts(block_labels@),
        ),
{
    let operands: usize = op.operands.len();
    let results: usize = op.results.len();
    proof {
        if results >= 1 {
            lemma_symbols(texts(value_names@), *op, next_value_id);
        }
    }
    if kind.binop_mnemonic().is_some() {
        return operands >= 2 && results >= 1;
    }
    if kind.cast_mnemonic().is_some() {
        return operands >= 1 && results >= 1;
    }
    match kind {
        LlvmOp::Br => op.successors.len() >= 1,
        LlvmOp::CondBr => op.successors.len() >= 2 && (operands >= 1 || !block_labels.contains_key(
            &op.successors[0],
        ) || !block_labels.contains_key(&op.successors[1])),
        LlvmOp::Load => operands >= 1 && results >= 1,
        LlvmOp::Store => operands >= 2,
        LlvmOp::Alloca => results >= 1 && matches!(op.attrs, OpAttrs::Alloca { element_type: _ }),
        LlvmOp::GetElementPtr => match &op.attrs {
            OpAttrs::GetElementPtr { source_type, indices, indexed_type: _ } => operands >= 1
                && results >= 1 && (!matches!(source_type.spelling, Spelling::Text(_))
                || !has_pointer_type(state, &op.operands[0]) || have_operands(
                indices,
                &op.operands,
            )),
            _ => false,
        },
        LlvmOp::AtomicLoad => operands >= 1 && results >= 1 && is_atomic(&op.attrs),
        LlvmOp::AtomicStore => operands >= 2 && is_atomic(&op.attrs),
        LlvmOp::AtomicRmw => operands >= 2 && results >= 1 && matches!(
            op.attrs,
            OpAttrs::AtomicRmw { kind: _, syncscope: _, ordering: _ }
        ),
        LlvmOp::AtomicCmpxchg => operands >= 3 && results >= 1 && matches!(
            op.attrs,
            OpAttrs::AtomicCmpxchg { syncscope: _, success_ordering: _, failure_ordering: _ }
        ),
        LlvmOp::Fence => is_atomic(&op.attrs),
        LlvmOp::FNeg => operands >= 1 && results >= 1,
        LlvmOp::ICmp => operands >= 2 && results >= 1 && matches!(op.attrs, OpAttrs::ICmp(_)),
        LlvmOp::FCmp => operands >= 2 && results >= 1 && matches!(op.attrs, OpAttrs::FCmp(_)),
        LlvmOp::Select => operands >= 3 && results >= 1,
        LlvmOp::Call => match &op.attrs {
            OpAttrs::Call { callee: _, result_type, convergent: _ } => intrinsic_of(
                state,
                op,
            ).is_some() || matches!(result_type.kind, TypeKind::Void) || results >= 1,
            _ => false,
        },
        LlvmOp::InlineAsm | LlvmOp::InlineAsmMulti => matches!(
            op.attrs,
            OpAttrs::InlineAsm { template: _, constraints: _, convergent: _ }
        ),
        LlvmOp::ZExt => operands >= 1 && results >= 1,
        LlvmOp::ExtractValue => operands >= 1 && results >= 1 && (!is_spelled(&op.operands[0])
            || matches!(op.attrs, OpAttrs::Indices(_))),
        LlvmOp::InsertValue => {
            if operands < 2 || results < 1 {
                return false;
            }
            let value = &op.operands[1];
            let known = !matches!(value.ty.kind, TypeKind::Pointer { address_space: _ })
                || has_pointer_type(state, value);
            !is_spelled(&op.operands[0]) || !is_spelled(value) || !known || matches!(
                op.attrs,
                OpAttrs::Indices(_)
            )
        },
        LlvmOp::Undef => results >= 1,
        LlvmOp::Constant => match &op.attrs {
            OpAttrs::Constant(ConstantAttr::Integer { bytes: _, width }) => results >= 1 && *width
                > 0,
            OpAttrs::Constant(_) => results >= 1,
            _ => false,
        },
        LlvmOp::AddressOf => is_symbol(op, value_names),
        _ => true,
    }
}

/// Whether attributes are those of an atomic access or a fence.
fn is_atomic(attrs: &OpAttrs) -> (r: bool)
    ensures
        r == attrs is Atomic,
{
    matches!(attrs, OpAttrs::Atomic { syncscope: _, ordering: _ })
}

impl ModuleExportState {
    /// Whether an operation can be exported: it has what its export reads, and
    /// the numbers of temporaries and pointer casts do not run out.
    pub fn can_export(
        &self,
        op: &Operation,
        value_names: &HashMap<u64, String>,
        next_value_id: usize,
        block_labels: &HashMap<u64, String>,
    ) -> (r: bool)
        ensures
            r == (casts_fit(*self, *op) && ({
                let (names, n) = registered(texts(value_names@), *op, next_value_id);
                &&& exportable(*self, *op, names, texts(block_labels@))
                &&& n + temporaries(self.nvvm_ir_dialect, *op, names) <= usize::MAX
            })),
    {
        let next = next_behind(op, value_names, next_value_id);
        let limit: u128 = widened(usize::MAX);
        match LlvmOp::try_from(op.op_type.as_str()) {
            Ok(kind) => {
                proof {
                    lemma_of_type(kind);
                    if op.results@.len() >= 1 {
                        lemma_symbols(texts(value_names@), *op, next_value_id);
                    }
                }
                let used = temporaries_of(self, kind, op);
                is_complete(self, kind, op, value_names, next_value_id, block_labels)
                    && has_cast_number(
                    self,
                    kind,
                    op,
                    Ghost(registered(texts(value_names@), *op, next_value_id).0),
                    Ghost(texts(block_labels@)),
                ) && next <= limit && used <= limit - next
            },
            Err(_) => {
                proof {
                    lemma_of_no_type(op.op_type@);
                }
                next <= limit
            },
        }
    }
}

/// A machine word, in twice its width.
fn widened(n: usize) -> (r: u128)
    ensures
        r == n,
{
    n as u128
}

} // verus!
