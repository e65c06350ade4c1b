# ref_str

Compact borrowed-or-shared string types, with their contracts proved.

A value is always in exactly one of three states: borrowed (`&'a str`),
inline (up to two machine words minus one byte, stored in the value itself),
or shared (`Rc<str>` or `Arc<str>`). The state, the byte length, a short
FNV-1a hash and an ASCII flag are packed into a metadata word; inline values
pack their bytes into the two words, the last byte carrying the tag and length.

Layout:

- `src/arch.rs`, `src/arch/layout.rs`: the bit layout of the metadata word and
  of the inline tag byte, with the encode/decode laws.
- `src/raw.rs`: `RawParts`, the two-word payload, and the inline packing.
- `src/backend.rs`: the `Rc<str>` and `Arc<str>` backends.
- `src/compact.rs`, `src/compact/`: `RefStrCore`, the state machine of the
  representation, its standard traits and the lexicographic order.
- `src/local.rs`, `src/shared.rs`: the four public wrappers.
- `src/text.rs`, `src/fmt.rs`: string comparison and debug rendering.
- `app/lib.rs`: `serde` and `arbitrary` support on copies of the wrappers.
