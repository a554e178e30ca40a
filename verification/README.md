# revm_bytecode

The EVM opcode table, verified with Verus.

- `src/constants.rs`: one named byte constant per opcode.
- `src/info.rs`: `OpCodeInfo` (name, stack inputs and outputs, immediate size,
  terminating flag) with its builders.
- `src/table.rs`: the table as spec functions (names, stack effects, immediate sizes,
  halting opcodes) and `opcode_info`, the executable lookup proved to agree with them.
- `src/opcode.rs`: `OpCode`, a byte that is always an opcode of the table, and its
  methods, among them `parse`, the inverse of `as_str`.
- `src/laws.rs`: properties of the table as a whole: names identify opcodes, the
  opcode ranges, the count of opcodes, names are short ASCII text.
