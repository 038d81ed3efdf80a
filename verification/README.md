# jvm interpreter core, verified

The bytecode interpreter of a small Java virtual machine, written in Verus.

* `src/value.rs` — stack and local slots, value types, exception kinds, faults.
* `src/stack.rs`, `src/local.rs` — the operand stack and the local variable table.
* `src/model.rs` — heap objects, classes, fields, constant pool entries, exception
  handlers, methods, and the runtime a frame works on.
* `src/state.rs` — the mathematical state of a frame and the meaning of each group of
  instructions over it.
* `src/step.rs` — the meaning of every opcode and of running the interpreter loop.
* `src/arith.rs` — exact `int` and `long` arithmetic (wrapping, truncating division).
* `src/text.rs` — the texts of the exception messages.
* `src/frame.rs` — the frame and its instructions, each proved against its meaning.
* `src/thread.rs` — Java threads and the main thread.
* `src/laws.rs` — properties spanning instructions: round trips, invariants, budgets.
* `app/main.rs` — a command-line driver that reads a method's bytecode from a file and
  runs it; it carries out the floating-point instructions, which the library leaves to
  its caller.

An instruction that cannot run (an empty stack, a slot of the wrong kind, an operand past
the end of the code, ...) returns a `Fault` and leaves the frame unchanged. Java
exceptions the interpreter raises (null pointer, array index, division by zero) are
allocated on the heap and thrown to the method's exception handlers.
