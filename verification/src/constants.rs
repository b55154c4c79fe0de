//! Virtual operations: they print nothing, and name their results by what
//! stands for them at every use.
use pliron::utils::apint::APInt;
use std::collections::HashMap;
use std::num::NonZero;
use vstd::arithmetic::power2::pow2;
use vstd::prelude::*;

use crate::ir::{ConstantAttr, OpAttrs, Operation};
use crate::state::ModuleExportState;
use crate::text::{begins_with, decimal, texts};

verus! {

broadcast use {
    vstd::std_specs::hash::group_hash_axioms,
    crate::text::lemma_texts_insert,
    crate::text::lemma_texts,
};

/// The number that bytes spell, the least significant first.
pub open spec fn little_endian(bytes: Seq<u8>) -> nat
    decreases bytes.len(),
{
    if bytes.len() == 0 {
        0
    } else {
        bytes[0] as nat + 256 * little_endian(bytes.drop_first())
    }
}

/// The literal of a constant: integers are printed as unsigned decimals,
/// numbers by their literals, and whatever else as zero.
pub open spec fn constant_text(value: ConstantAttr) -> Seq<char> {
    match value {
        ConstantAttr::Integer { bytes, width } => decimal(
            little_endian(bytes@) % pow2(width as nat),
        ),
        ConstantAttr::Half { literal } => literal@,
        ConstantAttr::Single { literal } => literal@,
        ConstantAttr::Double { literal } => literal@,
        ConstantAttr::Other => "0"@,
    }
}

/// Whether a constant is one that can be printed: integers have at least one
/// bit.
pub open spec fn printable(value: ConstantAttr) -> bool {
    match value {
        ConstantAttr::Integer { bytes: _, width } => width > 0,
        _ => true,
    }
}

/// The unsigned decimal spelling of an integer of `width` bits.
///
/// `APInt::from_u8_slice` reads the bytes as little-endian and keeps the lowest
/// `width` bits, and `APInt::to_string_unsigned_decimal` spells them in decimal
/// without leading zeros.
#[verifier::external_body]
fn apint_unsigned_decimal(bytes: &[u8], width: u32) -> (r: String)
    requires
        width > 0,
    ensures
        r@ == decimal(little_endian(bytes@) % pow2(width as nat)),
{
    APInt::from_u8_slice(bytes, NonZero::new(width as usize).unwrap()).to_string_unsigned_decimal()
}

/// The literal of a constant.
pub fn constant_literal(value: &ConstantAttr) -> (r: String)
    requires
        printable(*value),
    ensures
        r@ == constant_text(*value),
{
    match value {
        ConstantAttr::Integer { bytes, width } => apint_unsigned_decimal(bytes.as_slice(), *width),
        ConstantAttr::Half { literal } => literal.clone(),
        ConstantAttr::Single { literal } => literal.clone(),
        ConstantAttr::Double { literal } => literal.clone(),
        ConstantAttr::Other => "0".to_string(),
    }
}

impl ModuleExportState {
    /// Names an undefined value.
    pub fn emit_undef(&self, op: &Operation, value_names: &mut HashMap<u64, String>)
        requires
            op.results@.len() >= 1,
        ensures
            texts(final(value_names)@) == texts(old(value_names)@).insert(
                op.results@[0].id,
                "undef"@,
            ),
    {
        value_names.insert(op.results[0].id, "undef".to_string());
    }

    /// Names a constant by its literal.
    pub fn emit_constant(&self, op: &Operation, value_names: &mut HashMap<u64, String>)
        requires
            op.results@.len() >= 1,
            op.attrs is Constant,
            printable(op.attrs->Constant_0),
        ensures
            texts(final(value_names)@) == texts(old(value_names)@).insert(
                op.results@[0].id,
                constant_text(op.attrs->Constant_0),
            ),
    {
        if let OpAttrs::Constant(value) = &op.attrs {
            value_names.insert(op.results[0].id, constant_literal(value));
        }
    }

    /// Exports the address of a global, which is nothing: the result is named
    /// by the symbol before any block is exported, and every use prints that.
    pub fn emit_address_of(&self, op: &Operation, value_names: &HashMap<u64, String>)
        requires
            op.results@.len() >= 1,
            names_symbol(texts(value_names@), op.results@[0].id),
    {
    }
}

/// Whether a value is named by a global symbol.
pub open spec fn names_symbol(names: Map<u64, Seq<char>>, id: u64) -> bool {
    names.contains_key(id) && begins_with(names[id], "@"@)
}

} // verus!
