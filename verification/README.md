# lvm_class

A reader, writer and `javap`-style printer for Java `.class` files, written in Verus.
Every function in `src/` carries a contract over a mathematical model of the data
(sequences of bytes, of constant pool entries, of listing lines), and all but three small
wrappers of standard library string operations are proved by Verus.

## Layout

- `src/cursor.rs`, `src/read.rs`: a big-endian byte cursor, and the specification-level
  combinators that the readers share.
- `src/constant_pool/`: constant pool entries, their tags, reading and writing them
  (with the law that a written entry reads back as itself), lookups of names and
  descriptors, and a builder that adds each entry once, in `javac`'s order.
- `src/attribute/`: class, field, method, code and shared attributes, annotations and
  type annotations, stack map frames.
- `src/bytecode/`: opcodes, operands and the decoder of a method's code.
- `src/member/`, `src/flags.rs`: fields, methods and access flags.
- `src/class_file.rs`: reading a whole class file and writing it back.
- `src/javap_fmt/`, `src/print.rs`: the `javap`-style listing, as lines with their
  indentation depth.
- `src/jasm_dis.rs`, `src/rns_dis.rs`: text of entries, instructions and flags in the
  assembler syntaxes.
- `src/text.rs`: character-level string helpers; the standard library's `String::push`
  and `str::escape_debug` stand behind small trusted wrappers there.
- `app/`: what stays outside the proof: the text of floating-point constants, error
  types with `std::error::Error`, and entry points that check the library's
  preconditions before calling it.
- `tests/`: tests on concrete values, one or more for each law.
