//! Calls and inline assembly.
use std::collections::HashMap;
use vstd::prelude::*;
use vstd::string::StringExecFns;

use crate::config::NvvmIrDialect;
use crate::ir::{CallOpCallable, OpAttrs, Operation, TypeKind, Value};
use crate::saturating::{uses_temporaries, SaturatingIntrinsic};
use crate::state::{begin_definition, failure, lemma_values_spelled, name_of, typed_pointers};
use crate::state::{ModuleExportState, Printer};
use crate::text::{begins_with, characters, decimal, has_prefix, push_decimal, replace_char};
use crate::text::{replaced, texts};

verus! {

broadcast use {
    vstd::std_specs::hash::group_hash_axioms,
    crate::text::lemma_texts_insert,
    crate::text::lemma_texts,
    crate::state::lemma_values_stopped,
};

/// The name under which a function is called: intrinsics have dots where the
/// module has underscores, and other functions lose the device prefix.
pub open spec fn callee_name(name: Seq<char>, device_name: Seq<char>) -> Seq<char> {
    if begins_with(name, "llvm_"@) {
        replaced(name, '_', '.')
    } else {
        device_name
    }
}

/// The saturating intrinsic that a call is lowered from, if it is one: with
/// typed pointers, a direct call of a saturating intrinsic.
pub open spec fn lowered_intrinsic(dialect: Option<NvvmIrDialect>, attrs: OpAttrs) -> Option<
    SaturatingIntrinsic,
> {
    match attrs {
        OpAttrs::Call {
            callee: CallOpCallable::Direct { name, device_name },
            result_type: _,
            convergent: _,
        } => if typed_pointers(dialect) {
            SaturatingIntrinsic::named(callee_name(name@, device_name@))
        } else {
            None
        },
        _ => None,
    }
}

/// The number of temporaries that the export of a call uses.
pub open spec fn call_temporaries(
    dialect: Option<NvvmIrDialect>,
    op: Operation,
    names: Map<u64, Seq<char>>,
) -> nat {
    match lowered_intrinsic(dialect, op.attrs) {
        Some(intrinsic) => if uses_temporaries(op, names) {
            intrinsic.temporaries()
        } else {
            0
        },
        None => 0,
    }
}

/// Whether a call has what its export reads: the attributes of a call and,
/// where it is exported as a call with a result, a named result.
pub open spec fn callable(
    dialect: Option<NvvmIrDialect>,
    op: Operation,
    names: Map<u64, Seq<char>>,
) -> bool {
    &&& op.attrs is Call
    &&& lowered_intrinsic(dialect, op.attrs) is Some || op.attrs->Call_result_type.kind is Void || (
    op.results@.len() >= 1 && names.contains_key(op.results@[0].id))
}

impl Printer {
    /// Ends a call. Convergent ones get the attribute group `#0`, and the
    /// module is marked to need it.
    pub open spec fn end_call(self, convergent: bool) -> Printer {
        if self.error is Some {
            self
        } else if convergent {
            Printer { convergent_used: true, ..self.text(") #0\n"@) }
        } else {
            self.text(")\n"@)
        }
    }

    /// Prints a call.
    pub open spec fn call(self, op: Operation, names: Map<u64, Seq<char>>, n: nat) -> Printer {
        match lowered_intrinsic(self.dialect, op.attrs) {
            Some(intrinsic) => self.saturating(op, intrinsic, names, n),
            None => {
                let result_type = op.attrs->Call_result_type;
                let begun = if result_type.kind is Void {
                    self.text("  call void"@)
                } else {
                    self.definition(names, op.results@[0], "call"@).ty(result_type)
                };
                let (called, convergent) = match op.attrs->Call_callee {
                    CallOpCallable::Direct { name, device_name } => (
                        begun.text(" @"@).text(callee_name(name@, device_name@)).text("("@),
                        op.attrs->Call_convergent,
                    ),
                    CallOpCallable::Indirect(val) => (
                        begun.text(" "@).value(names, val).text("("@),
                        false,
                    ),
                };
                called.typed_values(names, op.operands@, op.operands@.len()).end_call(convergent)
            },
        }
    }

    /// Prints inline assembly behind the type of what it gives.
    pub open spec fn assembly(self, op: Operation, names: Map<u64, Seq<char>>) -> Printer {
        self.text(" asm sideeffect \""@).text(op.attrs->InlineAsm_template@).text("\", \""@).text(
            op.attrs->InlineAsm_constraints@,
        ).text("\"("@).typed_values(names, op.operands@, op.operands@.len()).end_call(
            op.attrs->InlineAsm_convergent,
        )
    }

    /// Prints inline assembly with at most one result.
    pub open spec fn inline_asm(self, op: Operation, names: Map<u64, Seq<char>>) -> Printer {
        let begun = if op.results@.len() > 0 {
            self.definition(names, op.results@[0], "call"@).ty(op.results@[0].ty)
        } else {
            self.text("  call void"@)
        };
        begun.assembly(op, names)
    }

    /// Prints the extraction of the first `k` results from the structure
    /// `source` of the type `struct_type`.
    pub open spec fn extractions(
        self,
        results: Seq<Value>,
        names: Map<u64, Seq<char>>,
        struct_type: Seq<char>,
        source: Seq<char>,
        k: nat,
    ) -> Printer
        decreases k,
    {
        if k == 0 {
            self
        } else {
            self.extractions(results, names, struct_type, source, (k - 1) as nat).definition(
                names,
                results[k - 1],
                "extractvalue"@,
            ).text(struct_type).text(" "@).text(source).text(", "@).text(
                decimal((k - 1) as nat),
            ).text("\n"@)
        }
    }

    /// Prints inline assembly with any number of results. Several results, or
    /// one, come in a structure, from which they are extracted.
    pub open spec fn inline_asm_multi(self, op: Operation, names: Map<u64, Seq<char>>) -> Printer {
        let results = op.results@;
        if results.len() == 0 {
            self.text("  call void"@).assembly(op, names)
        } else {
            match struct_type(results) {
                Err(e) => self.fail(e),
                Ok(ty) => {
                    let source = names[results[0].id] + "_struct"@;
                    self.text("  "@).text(source).text(" = call "@).text(ty).assembly(
                        op,
                        names,
                    ).extractions(results, names, ty, source, results.len())
                },
            }
        }
    }
}

/// The spellings of the types of the first `k` of a list of values, with commas
/// between them, or the message of the first that cannot be spelled.
pub open spec fn type_list(values: Seq<Value>, k: nat) -> Result<Seq<char>, Seq<char>>
    decreases k,
{
    if k == 0 {
        Ok(Seq::empty())
    } else {
        match (type_list(values, (k - 1) as nat), values[k - 1].ty.spelled()) {
            (Err(e), _) => Err(e),
            (_, Err(e)) => Err(e),
            (Ok(list), Ok(s)) => if k > 1 {
                Ok(list + ", "@ + s)
            } else {
                Ok(list + s)
            },
        }
    }
}

/// Whether the types of all values can be spelled.
pub open spec fn all_spelled(values: Seq<Value>) -> bool {
    forall|i: int| 0 <= i < values.len() ==> (#[trigger] values[i]).ty.spelled() is Ok
}

/// Whether all values are named.
pub open spec fn all_named(values: Seq<Value>, names: Map<u64, Seq<char>>) -> bool {
    forall|i: int| 0 <= i < values.len() ==> names.contains_key((#[trigger] values[i]).id)
}

/// The structure type of a list of values.
pub open spec fn struct_type(values: Seq<Value>) -> Result<Seq<char>, Seq<char>> {
    match type_list(values, values.len()) {
        Ok(list) => Ok("{"@ + list + "}"@),
        Err(e) => Err(e),
    }
}

/// The name under which a function is called. Whether a direct callee is a
/// convergent intrinsic is a question about this name.
pub fn callee_name_of(name: &String, device_name: &String) -> (r: String)
    ensures
        r@ == callee_name(name@, device_name@),
{
    if has_prefix(&characters(name.as_str()), &characters("llvm_")) {
        replace_char(name.as_str(), '_', '.')
    } else {
        device_name.clone()
    }
}

impl ModuleExportState {
    /// Ends a call.
    fn export_call_end(&mut self, convergent: bool, output: &mut String)
        ensures
            final(self).printer(final(output)@, None) == old(self).printer(
                old(output)@,
                None,
            ).end_call(convergent),
    {
        if convergent {
            output.append(") #0\n");
            self.convergent_used = true;
        } else {
            output.append(")\n");
        }
    }

    /// Exports a call.
    pub fn emit_call(
        &mut self,
        op: &Operation,
        value_names: &HashMap<u64, String>,
        next_value_id: &mut usize,
        output: &mut String,
    ) -> (r: Result<(), String>)
        requires
            callable(old(self).nvvm_ir_dialect, *op, texts(value_names@)),
            *old(next_value_id) + call_temporaries(
                old(self).nvvm_ir_dialect,
                *op,
                texts(value_names@),
            ) <= usize::MAX,
        ensures
            final(self).printer(final(output)@, failure(r)) == old(self).printer(
                old(output)@,
                None,
            ).call(*op, texts(value_names@), *old(next_value_id) as nat),
            *final(next_value_id) == *old(next_value_id) + call_temporaries(
                old(self).nvvm_ir_dialect,
                *op,
                texts(value_names@),
            ),
    {
        if let OpAttrs::Call { callee, result_type, convergent } = &op.attrs {
            let direct_callee = match callee {
                CallOpCallable::Direct { name, device_name } => Some(
                    callee_name_of(name, device_name),
                ),
                CallOpCallable::Indirect(_) => None,
            };
            if self.has_typed_pointers() {
                if let Some(name) = &direct_callee {
                    if let Some(intrinsic) = SaturatingIntrinsic::from_name(name.as_str()) {
                        return self.emit_typed_nvvm_saturating_intrinsic(
                            op,
                            intrinsic,
                            value_names,
                            next_value_id,
                            output,
                        );
                    }
                }
            }
            if matches!(result_type.kind, TypeKind::Void) {
                output.append("  call void");
            } else {
                let res_name = name_of(value_names, &op.results[0]);
                begin_definition(output, res_name, "call");
                self.export_type(result_type, output)?;
            }
            let mut is_convergent = false;
            match callee {
                CallOpCallable::Direct { name: _, device_name: _ } => {
                    let fixed = direct_callee.unwrap();
                    is_convergent = *convergent;
                    output.append(" @");
                    output.append(fixed.as_str());
                    output.append("(");
                },
                CallOpCallable::Indirect(val) => {
                    output.append(" ");
                    self.export_value(val, value_names, output)?;
                    output.append("(");
                },
            }
            self.export_typed_values(&op.operands, value_names, output)?;
            self.export_call_end(is_convergent, output);
        }
        Ok(())
    }

    /// Exports inline assembly behind the type of what it gives.
    fn export_assembly(
        &mut self,
        op: &Operation,
        value_names: &HashMap<u64, String>,
        output: &mut String,
    ) -> (r: Result<(), String>)
        requires
            op.attrs is InlineAsm,
        ensures
            final(self).printer(final(output)@, failure(r)) == old(self).printer(
                old(output)@,
                None,
            ).assembly(*op, texts(value_names@)),
    {
        if let OpAttrs::InlineAsm { template, constraints, convergent } = &op.attrs {
            output.append(" asm sideeffect \"");
            output.append(template.as_str());
            output.append("\", \"");
            output.append(constraints.as_str());
            output.append("\"(");
            self.export_typed_values(&op.operands, value_names, output)?;
            self.export_call_end(*convergent, output);
        }
        Ok(())
    }

    /// Exports inline assembly with at most one result.
    pub fn emit_inline_asm(
        &mut self,
        op: &Operation,
        value_names: &HashMap<u64, String>,
        output: &mut String,
    ) -> (r: Result<(), String>)
        requires
            op.attrs is InlineAsm,
            op.results@.len() > 0 ==> value_names@.contains_key(op.results@[0].id),
        ensures
            final(self).printer(final(output)@, failure(r)) == old(self).printer(
                old(output)@,
                None,
            ).inline_asm(*op, texts(value_names@)),
    {
        if op.results.len() > 0 {
            let res = &op.results[0];
            begin_definition(output, name_of(value_names, res), "call");
            self.export_type(&res.ty, output)?;
        } else {
            output.append("  call void");
        }
        self.export_assembly(op, value_names, output)
    }

    /// The structure type of a list of values.
    fn struct_type_of(&self, values: &Vec<Value>) -> (r: Result<String, String>)
        ensures
            match r {
                Ok(s) => struct_type(values@) == Ok::<Seq<char>, Seq<char>>(s@),
                Err(e) => struct_type(values@) == Err::<Seq<char>, Seq<char>>(e@),
            },
    {
        let mut ty = "{".to_string();
        assert(ty@ =~= "{"@ + Seq::<char>::empty());
        for i in 0..values.len()
            invariant
                type_list(values@, i as nat) is Ok,
                ty@ == "{"@ + type_list(values@, i as nat)->Ok_0,
        {
            let ghost before = type_list(values@, i as nat)->Ok_0;
            if i > 0 {
                ty.append(", ");
            }
            match self.type_to_string(&values[i].ty) {
                Ok(s) => {
                    ty.append(s.as_str());
                    assert("{"@ + before + s@ =~= "{"@ + (before + s@));
                    assert("{"@ + before + ", "@ + s@ =~= "{"@ + (before + ", "@ + s@));
                },
                Err(e) => {
                    proof {
                        lemma_type_list_stopped(values@, (i + 1) as nat, values@.len());
                    }
                    return Err(e);
                },
            }
        }
        ty.append("}");
        Ok(ty)
    }

    /// Exports inline assembly with any number of results.
    pub fn emit_inline_asm_multi(
        &mut self,
        op: &Operation,
        value_names: &HashMap<u64, String>,
        output: &mut String,
    ) -> (r: Result<(), String>)
        requires
            op.attrs is InlineAsm,
            struct_type(op.results@) is Ok && op.results@.len() > 0 ==> value_names@.contains_key(
                op.results@[0].id,
            ),
            struct_type(op.results@) is Ok && all_spelled(op.operands@) ==> all_named(
                op.results@,
                texts(value_names@),
            ),
        ensures
            final(self).printer(final(output)@, failure(r)) == old(self).printer(
                old(output)@,
                None,
            ).inline_asm_multi(*op, texts(value_names@)),
    {
        broadcast use lemma_extractions_stopped;

        if op.results.len() == 0 {
            output.append("  call void");
            return self.export_assembly(op, value_names, output);
        }
        let ty = self.struct_type_of(&op.results)?;
        let mut source = name_of(value_names, &op.results[0]).to_string();
        source.append("_struct");
        output.append("  ");
        output.append(source.as_str());
        output.append(" = call ");
        output.append(ty.as_str());
        let ghost before = self.printer(output@, None);
        self.export_assembly(op, value_names, output)?;
        proof {
            let called = before.text(" asm sideeffect \""@).text(
                op.attrs->InlineAsm_template@,
            ).text("\", \""@).text(op.attrs->InlineAsm_constraints@).text("\"("@);
            lemma_values_spelled(called, texts(value_names@), op.operands@, op.operands@.len());
        }
        self.export_extractions(&op.results, value_names, ty.as_str(), source.as_str(), output);
        Ok(())
    }

    /// Prints the extraction of results from a structure.
    fn export_extractions(
        &self,
        results: &Vec<Value>,
        value_names: &HashMap<u64, String>,
        ty: &str,
        source: &str,
        output: &mut String,
    )
        requires
            all_named(results@, texts(value_names@)),
        ensures
            self.printer(final(output)@, None) == self.printer(old(output)@, None).extractions(
                results@,
                texts(value_names@),
                ty@,
                source@,
                results@.len(),
            ),
    {
        for i in 0..results.len()
            invariant
                all_named(results@, texts(value_names@)),
                self.printer(output@, None) == self.printer(old(output)@, None).extractions(
                    results@,
                    texts(value_names@),
                    ty@,
                    source@,
                    i as nat,
                ),
        {
            assert(texts(value_names@).contains_key(results@[i as int].id));
            let res_name = name_of(value_names, &results[i]);
            begin_definition(output, res_name, "extractvalue");
            output.append(ty);
            output.append(" ");
            output.append(source);
            output.append(", ");
            push_decimal(output, i as u128);
            output.append("\n");
        }
    }
}

/// A list of types ends with the first that cannot be spelled.
proof fn lemma_type_list_stopped(values: Seq<Value>, k: nat, m: nat)
    requires
        k <= m,
        type_list(values, k) is Err,
    ensures
        type_list(values, m) == type_list(values, k),
    decreases m,
{
    if k < m {
        lemma_type_list_stopped(values, k, (m - 1) as nat);
    }
}

/// Nothing is extracted behind an error.
pub broadcast proof fn lemma_extractions_stopped(
    p: Printer,
    results: Seq<Value>,
    names: Map<u64, Seq<char>>,
    struct_type: Seq<char>,
    source: Seq<char>,
    k: nat,
)
    requires
        p.error is Some,
    ensures
        #[trigger] p.extractions(results, names, struct_type, source, k) == p,
    decreases k,
{
    if k > 0 {
        lemma_extractions_stopped(p, results, names, struct_type, source, (k - 1) as nat);
    }
}

} // verus!
