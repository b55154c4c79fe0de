//! Textual NVVM IR, and page-locked host memory.
//!
//! The exporter prints the operations of the LLVM dialect as lines of LLVM IR,
//! in the flavour that the backend asks for ([`config`]). With typed pointers,
//! which libNVVM before Blackwell needs, it casts pointers where memory is
//! accessed through them, or they are inserted into an aggregate, with another
//! type than they are defined with, and lowers intrinsics that libNVVM does not
//! know.
//!
//! * [`ir`]: operations, values and types.
//! * [`llvm_op`]: which operations there are.
//! * [`state`]: the state of an export, and the printer that contracts are
//!   stated over.
//! * [`memory`], [`scalar`], [`calls`], [`saturating`], [`constants`]: how each
//!   kind of operation is printed.
//! * [`ops`]: terminators, and the dispatch; [`readiness`]: whether an operation
//!   can be exported.
//! * [`vocabulary`], [`lists`]: what the words mean that contracts are made of.
//! * [`lines`], [`memory_lines`], [`call_lines`]: the text that each operation is
//!   printed as; [`dispatch`], [`completeness`]: which operation is printed how, and
//!   what it must have for that.
//! * [`laws`], [`progress`], [`definitions`], [`naming`], [`pointers`],
//!   [`effects`], [`evaluation`], [`listing`]: what holds of every export.
//!
//! [`pinned_host_buffer`] holds the buffers for transfers to and from a device.
pub mod call_lines;
pub mod calls;
pub mod completeness;
pub mod config;
pub mod constants;
pub mod effects;
pub mod definitions;
pub mod dispatch;
pub mod evaluation;
pub mod ir;
pub mod laws;
pub mod lines;
pub mod listing;
pub mod lists;
pub mod llvm_op;
pub mod memory;
pub mod memory_lines;
pub mod naming;
pub mod ops;
pub mod pinned_host_buffer;
pub mod pointers;
pub mod progress;
pub mod readiness;
pub mod saturating;
pub mod scalar;
pub mod state;
pub mod text;
pub mod vocabulary;
