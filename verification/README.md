# rcc

The core of a small C compiler, written in Verus: every function under
`src/` carries a contract and is verified, except the wrappers in
`ir::slots`, whose contracts restate what the outside crates do.

- `integral`, `integral_order`, `bits`, `size`, `alignment`: integers of any
  width up to 128 bits with C's wrapping arithmetic, sizes in bytes and bits,
  power-of-two alignments.
- `triple`, `target_info`, `primitive`, `types`, `type_fmt`: targets, the C
  type system (promotions, usual arithmetic conversions, sizes, alignments)
  and how types are spelled.
- `constant`, `number`, `text`: constants, numeric literals and the text the
  compiler prints.
- `storage`, `redeclarable`, `declref`, `declaration`: storage classes,
  linkage and redeclaration chains.
- `folding`, `initialization`: constant folding and initializer lists.
- `ir`: IR types, instructions, values with their use lists, globals and the
  data layout string. The context keeps its values in a `slotmap` slot map,
  the use lists in a secondary map and the interned constants in a `bimap`
  map; `ir::slots` holds the trusted wrappers around those crates.

`app/` holds what cannot be verified: arena allocation over `bumpalo`, the
host description and floating-point work.
