# bex_vm_types

Runtime type heads for the BEX virtual machine, verified with Verus.

- `src/ty.rs`: the type family (`Ty`, with `TypeHead` declaration
  references), its mathematical view, and the in-place walk over every head
  a type carries (`HeadVisitor`, `HeadCarrier`).
- `src/object.rs`: heap objects as far as the types they carry go, and
  `visit_object_heads_mut`, the walk over every head of an object.
- `src/typetag_index.rs`: `TagIndex`, the tag → declaration map built from a
  compile-time pool, and the visitors that resolve and collect heads.
- `src/type_match.rs`: substitution of frame type arguments into pattern
  templates, the structural subtype and equivalence relations, and the
  `match`/`is` matchers built on them.

Each module states its contracts over spec functions and proves the laws of
the library (index lookup, resolution, walk order, and the subtype relation
being a preorder with covariant union membership and invariant generic
arguments) as proof functions beside the code.
