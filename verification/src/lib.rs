//! Runtime type heads for the BEX virtual machine: the type family whose
//! declaration references are heads, the walk that visits every head an
//! object carries, the tag index that resolves heads to their declarations,
//! and the structural type matching used by `match`/`is` patterns.
pub mod ty;
pub mod object;
pub mod typetag_index;
pub mod type_match;
