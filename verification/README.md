# nvvm_export

Prints operations of an LLVM dialect as textual LLVM IR for NVIDIA GPUs, and
manages page-locked host memory for transfers.

* `src/` is the library. Every function states what it returns or changes, and
  Verus proves it. What a piece of the exporter prints is stated over a
  `Printer`: the output so far, the state that printing goes by, and the error
  that stopped it.
* `tests/` runs the library on concrete operations and buffers.
* `app/` reads operations of the pliron framework into the library's types, and
  serves the buffers from the CUDA driver.

The public proof functions named `law_*` state what holds of every export:
output only grows and lines are complete, results are defined under their names,
no temporary is used without a definition or given out twice, the pointers that
memory is accessed through have the types they are used with, and the code that
saturating intrinsics are lowered to saturates.

Two things are trusted: that `String::push` appends its character, and that
pliron's `APInt` prints unsigned decimals (`constants::apint_unsigned_decimal`).
