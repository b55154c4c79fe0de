//! Terminators, and the dispatch over all operations.
use std::collections::HashMap;
use vstd::prelude::*;
use vstd::string::StringExecFns;

use crate::calls::{call_temporaries, callable};
use crate::config::NvvmIrDialect;
use crate::constants::{constant_text, names_symbol, printable};
use crate::ir::{Operation, Value};
use crate::llvm_op::{lemma_of_no_type, lemma_of_type, LlvmOp};
use crate::memory::indices_exist;
use crate::state::{failure, temp_name, ModuleExportState, Printer};
use crate::text::texts;

verus! {

broadcast use {
    vstd::std_specs::hash::group_hash_axioms,
    crate::text::lemma_texts_insert,
    crate::text::lemma_texts,
};

/// Names for the first `k` of a list of results, and the number of the next
/// temporary: results that have no name yet are numbered, from `n` on.
pub open spec fn named_results(
    names: Map<u64, Seq<char>>,
    results: Seq<Value>,
    n: nat,
    k: nat,
) -> (Map<u64, Seq<char>>, nat)
    decreases k,
{
    if k == 0 {
        (names, n)
    } else {
        let (before, next) = named_results(names, results, n, (k - 1) as nat);
        if before.contains_key(results[k - 1].id) {
            (before, next)
        } else {
            (before.insert(results[k - 1].id, temp_name(next)), next + 1)
        }
    }
}

/// Names for all results of an operation, and the number of the next
/// temporary, where that was `n` before.
pub open spec fn registered(names: Map<u64, Seq<char>>, op: Operation, n: usize) -> (
    Map<u64, Seq<char>>,
    nat,
) {
    named_results(names, op.results@, n as nat, op.results@.len())
}

/// The names behind an operation whose results are named in `names`: undefined
/// values and constants are named by what stands for them.
pub open spec fn names_behind(op: Operation, names: Map<u64, Seq<char>>) -> Map<u64, Seq<char>> {
    match LlvmOp::of_type(op.op_type@) {
        Some(LlvmOp::Undef) => names.insert(op.results@[0].id, "undef"@),
        Some(LlvmOp::Constant) => names.insert(
            op.results@[0].id,
            constant_text(op.attrs->Constant_0),
        ),
        _ => names,
    }
}

/// The number of temporaries, other than its results, that the export of an
/// operation uses.
pub open spec fn temporaries(
    dialect: Option<NvvmIrDialect>,
    op: Operation,
    names: Map<u64, Seq<char>>,
) -> nat {
    if LlvmOp::of_type(op.op_type@) == Some(LlvmOp::Call) {
        call_temporaries(dialect, op, names)
    } else {
        0
    }
}

/// Whether an operation has the operands, results, successors and attributes
/// that its export reads, up to the first error. Operations of unknown types can
/// always be exported.
pub open spec fn exportable(
    state: ModuleExportState,
    op: Operation,
    names: Map<u64, Seq<char>>,
    labels: Map<u64, Seq<char>>,
) -> bool {
    let p = state.printer(Seq::empty(), None);
    let operands = op.operands@.len();
    let results = op.results@.len();
    match LlvmOp::of_type(op.op_type@) {
        None => true,
        Some(kind) => if kind.binop() is Some {
            operands >= 2 && results >= 1
        } else if kind.cast() is Some {
            operands >= 1 && results >= 1
        } else {
            match kind {
                LlvmOp::Return => true,
                LlvmOp::Unreachable => true,
                LlvmOp::Br => op.successors@.len() >= 1,
                LlvmOp::CondBr => op.successors@.len() >= 2 && (labels.contains_key(
                    op.successors@[0],
                ) && labels.contains_key(op.successors@[1]) ==> operands >= 1),
                LlvmOp::Load => operands >= 1 && results >= 1,
                LlvmOp::Store => operands >= 2,
                LlvmOp::Alloca => results >= 1 && op.attrs is Alloca,
                LlvmOp::GetElementPtr => operands >= 1 && results >= 1 && op.attrs is GetElementPtr
                    && (p.reaches_indices(op) ==> indices_exist(
                    op.attrs->GetElementPtr_indices@,
                    op.operands@,
                )),
                LlvmOp::AtomicLoad => operands >= 1 && results >= 1 && op.attrs is Atomic,
                LlvmOp::AtomicStore => operands >= 2 && op.attrs is Atomic,
                LlvmOp::AtomicRmw => operands >= 2 && results >= 1 && op.attrs is AtomicRmw,
                LlvmOp::AtomicCmpxchg => operands >= 3 && results >= 1
                    && op.attrs is AtomicCmpxchg,
                LlvmOp::Fence => op.attrs is Atomic,
                LlvmOp::FNeg => operands >= 1 && results >= 1,
                LlvmOp::ICmp => operands >= 2 && results >= 1 && op.attrs is ICmp,
                LlvmOp::FCmp => operands >= 2 && results >= 1 && op.attrs is FCmp,
                LlvmOp::Select => operands >= 3 && results >= 1,
                LlvmOp::Call => callable(state.nvvm_ir_dialect, op, names),
                LlvmOp::InlineAsm => op.attrs is InlineAsm,
                LlvmOp::InlineAsmMulti => op.attrs is InlineAsm,
                LlvmOp::ZExt => operands >= 1 && results >= 1,
                LlvmOp::ExtractValue => operands >= 1 && results >= 1 && (
                op.operands@[0].ty.spelled() is Ok ==> op.attrs is Indices),
                LlvmOp::InsertValue => operands >= 2 && results >= 1 && (p.inserts(op)
                    ==> op.attrs is Indices),
                LlvmOp::Undef => results >= 1,
                LlvmOp::Constant => results >= 1 && op.attrs is Constant && printable(
                    op.attrs->Constant_0,
                ),
                LlvmOp::AddressOf => results >= 1 && names_symbol(names, op.results@[0].id),
                _ => true,
            }
        },
    }
}

/// Whether the export of an operation finds a number for the pointer cast that
/// it makes, if it makes one.
pub open spec fn casts_fit(state: ModuleExportState, op: Operation) -> bool {
    let first = op.operands@[0];
    let second = op.operands@[1];
    match LlvmOp::of_type(op.op_type@) {
        Some(LlvmOp::Load) | Some(LlvmOp::AtomicLoad) => state.can_use(
            first,
            op.results@[0].ty,
            first.ty.address_space(),
        ),
        Some(LlvmOp::Store) | Some(LlvmOp::AtomicStore) => state.can_use(
            second,
            first.ty,
            second.ty.address_space(),
        ),
        Some(LlvmOp::GetElementPtr) => state.can_use(
            first,
            op.attrs->GetElementPtr_source_type,
            first.ty.address_space(),
        ),
        Some(LlvmOp::AtomicRmw) | Some(LlvmOp::AtomicCmpxchg) => state.can_use(
            first,
            second.ty,
            first.ty.address_space(),
        ),
        Some(LlvmOp::InsertValue) => second.ty.spelled() matches Ok(slot) ==> state.can_coerce(
            second,
            slot,
        ),
        _ => true,
    }
}

impl Printer {
    /// Prints a return.
    pub open spec fn ret(self, op: Operation, names: Map<u64, Seq<char>>) -> Printer {
        let begun = self.text("  ret "@);
        if op.operands@.len() == 0 {
            begun.text("void"@).text("\n"@)
        } else {
            begun.typed_value(names, op.operands@[0]).text("\n"@)
        }
    }

    /// Prints a jump.
    pub open spec fn br(self, op: Operation, labels: Map<u64, Seq<char>>) -> Printer {
        let dest = op.successors@[0];
        if labels.contains_key(dest) {
            self.text("  br label %"@).text(labels[dest]).text("\n"@)
        } else {
            self.fail("Missing block label"@)
        }
    }

    /// Prints a conditional jump.
    pub open spec fn cond_br(
        self,
        op: Operation,
        names: Map<u64, Seq<char>>,
        labels: Map<u64, Seq<char>>,
    ) -> Printer {
        let true_dest = op.successors@[0];
        let false_dest = op.successors@[1];
        if !labels.contains_key(true_dest) {
            self.fail("Missing true label"@)
        } else if !labels.contains_key(false_dest) {
            self.fail("Missing false label"@)
        } else {
            self.text("  br i1 "@).value(names, op.operands@[0]).text(", label %"@).text(
                labels[true_dest],
            ).text(", label %"@).text(labels[false_dest]).text("\n"@)
        }
    }

    /// Prints an operation whose results are named, with temporaries from
    /// number `n` on.
    #[verifier::opaque]
    pub open spec fn operation(
        self,
        op: Operation,
        names: Map<u64, Seq<char>>,
        labels: Map<u64, Seq<char>>,
        n: nat,
    ) -> Printer {
        match LlvmOp::of_type(op.op_type@) {
            None => self.text("  ; Unknown op: "@).text(op.opid@).text("\n"@),
            Some(kind) => match (kind.binop(), kind.cast()) {
                (Some(mnemonic), _) => self.binop(mnemonic, op, names),
                (_, Some(mnemonic)) => self.cast(mnemonic, op, names),
                _ => match kind {
                    LlvmOp::Return => self.ret(op, names),
                    LlvmOp::Unreachable => self.text("  unreachable\n"@),
                    LlvmOp::Br => self.br(op, labels),
                    LlvmOp::CondBr => self.cond_br(op, names, labels),
                    LlvmOp::Load => self.load(op, names),
                    LlvmOp::Store => self.store(op, names),
                    LlvmOp::Alloca => self.alloca(op, names),
                    LlvmOp::GetElementPtr => self.gep(op, names),
                    LlvmOp::AtomicLoad => self.atomic_load(op, names),
                    LlvmOp::AtomicStore => self.atomic_store(op, names),
                    LlvmOp::AtomicRmw => self.atomic_rmw(op, names),
                    LlvmOp::AtomicCmpxchg => self.atomic_cmpxchg(op, names),
                    LlvmOp::Fence => self.fence(op),
                    LlvmOp::FNeg => self.fneg(op, names),
                    LlvmOp::ICmp => self.comparison(
                        "icmp"@,
                        op.attrs->ICmp_0.keyword(),
                        op,
                        names,
                    ),
                    LlvmOp::FCmp => self.comparison(
                        "fcmp"@,
                        op.attrs->FCmp_0.keyword(),
                        op,
                        names,
                    ),
                    LlvmOp::Select => self.select(op, names),
                    LlvmOp::Call => self.call(op, names, n),
                    LlvmOp::InlineAsm => self.inline_asm(op, names),
                    LlvmOp::InlineAsmMulti => self.inline_asm_multi(op, names),
                    LlvmOp::ZExt => self.zext(op, names),
                    LlvmOp::ExtractValue => self.extract_value(op, names),
                    LlvmOp::InsertValue => self.insert_value(op, names),
                    _ => self,
                },
            },
        }
    }
}

impl ModuleExportState {
    /// Exports a return.
    pub fn emit_return(
        &mut self,
        op: &Operation,
        value_names: &HashMap<u64, String>,
        output: &mut String,
    ) -> (r: Result<(), String>)
        ensures
            final(self).printer(final(output)@, failure(r)) == old(self).printer(
                old(output)@,
                None,
            ).ret(*op, texts(value_names@)),
    {
        output.append("  ret ");
        if op.operands.len() == 0 {
            output.append("void");
        } else {
            self.export_typed_value(&op.operands[0], value_names, output)?;
        }
        output.append("\n");
        Ok(())
    }

    /// Exports a jump.
    pub fn emit_br(
        &self,
        op: &Operation,
        block_labels: &HashMap<u64, String>,
        output: &mut String,
    ) -> (r: Result<(), String>)
        requires
            op.successors@.len() >= 1,
        ensures
            self.printer(final(output)@, failure(r)) == self.printer(old(output)@, None).br(
                *op,
                texts(block_labels@),
            ),
    {
        match block_labels.get(&op.successors[0]) {
            Some(label) => {
                output.append("  br label %");
                output.append(label.as_str());
                output.append("\n");
                Ok(())
            },
            None => Err("Missing block label".to_string()),
        }
    }

    /// Exports a conditional jump.
    pub fn emit_cond_br(
        &mut self,
        op: &Operation,
        value_names: &HashMap<u64, String>,
        block_labels: &HashMap<u64, String>,
        output: &mut String,
    ) -> (r: Result<(), String>)
        requires
            op.successors@.len() >= 2,
            block_labels@.contains_key(op.successors@[0]) && block_labels@.contains_key(
                op.successors@[1],
            ) ==> op.operands@.len() >= 1,
        ensures
            final(self).printer(final(output)@, failure(r)) == old(self).printer(
                old(output)@,
                None,
            ).cond_br(*op, texts(value_names@), texts(block_labels@)),
    {
        let true_label = match block_labels.get(&op.successors[0]) {
            Some(label) => label,
            None => {
                return Err("Missing true label".to_string());
            },
        };
        let false_label = match block_labels.get(&op.successors[1]) {
            Some(label) => label,
            None => {
                return Err("Missing false label".to_string());
            },
        };
        output.append("  br i1 ");
        self.export_value(&op.operands[0], value_names, output)?;
        output.append(", label %");
        output.append(true_label.as_str());
        output.append(", label %");
        output.append(false_label.as_str());
        output.append("\n");
        Ok(())
    }

    /// Names the results of an operation that have no name yet.
    fn register_results(
        op: &Operation,
        value_names: &mut HashMap<u64, String>,
        next_value_id: &mut usize,
    )
        requires
            registered(texts(old(value_names)@), *op, *old(next_value_id)).1 <= usize::MAX,
        ensures
            (texts(final(value_names)@), *final(next_value_id) as nat) == registered(
                texts(old(value_names)@),
                *op,
                *old(next_value_id),
            ),
    {
        let results = &op.results;
        let ghost names = texts(value_names@);
        let ghost n = *next_value_id as nat;
        for i in 0..results.len()
            invariant
                named_results(names, results@, n, results@.len()).1 <= usize::MAX,
                (texts(value_names@), *next_value_id as nat) == named_results(
                    names,
                    results@,
                    n,
                    i as nat,
                ),
        {
            proof {
                lemma_named_results_grow(names, results@, n, (i + 1) as nat, results@.len());
            }
            let id = results[i].id;
            if !value_names.contains_key(&id) {
                let name = Self::next_ssa_name(next_value_id);
                value_names.insert(id, name);
            }
        }
    }

    /// Exports an operation.
    ///
    /// Its results are named first, where they have no name yet.
    #[verifier::rlimit(40)]
    pub fn export_op(
        &mut self,
        op: &Operation,
        value_names: &mut HashMap<u64, String>,
        next_value_id: &mut usize,
        block_labels: &HashMap<u64, String>,
        output: &mut String,
    ) -> (r: Result<(), String>)
        requires
            casts_fit(*old(self), *op),
            ({
                let (names, n) = registered(texts(old(value_names)@), *op, *old(next_value_id));
                &&& exportable(*old(self), *op, names, texts(block_labels@))
                &&& n + temporaries(old(self).nvvm_ir_dialect, *op, names) <= usize::MAX
            }),
        ensures
            ({
                let (names, n) = registered(texts(old(value_names)@), *op, *old(next_value_id));
                &&& final(self).printer(final(output)@, failure(r)) == old(self).printer(
                    old(output)@,
                    None,
                ).operation(*op, names, texts(block_labels@), n)
                &&& texts(final(value_names)@) == names_behind(*op, names)
                &&& *final(next_value_id) == n + temporaries(
                    old(self).nvvm_ir_dialect,
                    *op,
                    names,
                )
            }),
    {
        proof {
            reveal(Printer::operation);
            lemma_registered(texts(value_names@), *op, *next_value_id);
        }
        Self::register_results(op, value_names, next_value_id);
        let kind = match LlvmOp::try_from(op.op_type.as_str()) {
            Ok(kind) => kind,
            Err(_) => {
                proof {
                    lemma_of_no_type(op.op_type@);
                }
                output.append("  ; Unknown op: ");
                output.append(op.opid.as_str());
                output.append("\n");
                return Ok(());
            },
        };
        proof {
            lemma_of_type(kind);
        }
        if let Some(mnemonic) = kind.binop_mnemonic() {
            return self.export_binop(mnemonic, op, value_names, output);
        }
        if let Some(mnemonic) = kind.cast_mnemonic() {
            return self.export_cast(mnemonic, op, value_names, output);
        }
        match kind {
            LlvmOp::Return => self.emit_return(op, value_names, output),
            LlvmOp::Unreachable => {
                output.append("  unreachable\n");
                Ok(())
            },
            LlvmOp::Br => self.emit_br(op, block_labels, output),
            LlvmOp::CondBr => self.emit_cond_br(op, value_names, block_labels, output),
            LlvmOp::Load => self.emit_load(op, value_names, output),
            LlvmOp::Store => self.emit_store(op, value_names, output),
            LlvmOp::Alloca => self.emit_alloca(op, value_names, output),
            LlvmOp::GetElementPtr => self.emit_gep(op, value_names, output),
            LlvmOp::AtomicLoad => self.emit_atomic_load(op, value_names, output),
            LlvmOp::AtomicStore => self.emit_atomic_store(op, value_names, output),
            LlvmOp::AtomicRmw => self.emit_atomic_rmw(op, value_names, output),
            LlvmOp::AtomicCmpxchg => self.emit_atomic_cmpxchg(op, value_names, output),
            LlvmOp::Fence => self.emit_fence(op, output),
            LlvmOp::FNeg => self.emit_fneg(op, value_names, output),
            LlvmOp::ICmp => self.emit_icmp(op, value_names, output),
            LlvmOp::FCmp => self.emit_fcmp(op, value_names, output),
            LlvmOp::Select => self.emit_select(op, value_names, output),
            LlvmOp::Call => self.emit_call(op, value_names, next_value_id, output),
            LlvmOp::InlineAsm => self.emit_inline_asm(op, value_names, output),
            LlvmOp::InlineAsmMulti => self.emit_inline_asm_multi(op, value_names, output),
            LlvmOp::ZExt => self.emit_zext(op, value_names, output),
            LlvmOp::ExtractValue => self.emit_extract_value(op, value_names, output),
            LlvmOp::InsertValue => self.emit_insert_value(op, value_names, output),
            LlvmOp::Undef => {
                self.emit_undef(op, value_names);
                Ok(())
            },
            LlvmOp::Constant => {
                self.emit_constant(op, value_names);
                Ok(())
            },
            LlvmOp::AddressOf => {
                self.emit_address_of(op, value_names);
                Ok(())
            },
            _ => Ok(()),
        }
    }
}

/// Naming more results uses no fewer numbers.
proof fn lemma_named_results_grow(
    names: Map<u64, Seq<char>>,
    results: Seq<Value>,
    n: nat,
    k: nat,
    m: nat,
)
    requires
        k <= m,
    ensures
        named_results(names, results, n, k).1 <= named_results(names, results, n, m).1,
    decreases m,
{
    if k < m {
        lemma_named_results_grow(names, results, n, k, (m - 1) as nat);
    }
}

/// All results of an operation are named, and numbers only grow.
proof fn lemma_registered(names: Map<u64, Seq<char>>, op: Operation, n: usize)
    ensures
        forall|i: int|
            0 <= i < op.results@.len() ==> registered(names, op, n).0.contains_key(
                (#[trigger] op.results@[i]).id,
            ),
        n <= registered(names, op, n).1,
{
    lemma_results_named(names, op.results@, n as nat, op.results@.len());
}

/// The first results are named, and numbers only grow.
pub(crate) proof fn lemma_results_named(
    names: Map<u64, Seq<char>>,
    results: Seq<Value>,
    n: nat,
    k: nat,
)
    requires
        k <= results.len(),
    ensures
        forall|i: int|
            0 <= i < k ==> named_results(names, results, n, k).0.contains_key(
                (#[trigger] results[i]).id,
            ),
        n <= named_results(names, results, n, k).1,
    decreases k,
{
    if k > 0 {
        lemma_results_named(names, results, n, (k - 1) as nat);
    }
}

} // verus!
