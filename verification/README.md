# crab_nbt

Named Binary Tag (NBT) values, verified with Verus.

- `src/nbt/tag.rs`: the tag type, its binary form (`serialize`, `serialize_data`) and its
  reading (`deserialize`, `deserialize_data`, and the cursor variants), clones and
  conversions.
- `src/nbt/deserialize.rs`: what reading binary data comes to, as spec functions, and the
  string and array readers.
- `src/nbt/roundtrip.rs`: reading back what was written gives the tag again.
- `src/nbt/order.rs`, `src/nbt/ordering.rs`: the order of tags and its laws.
- `src/nbt/snbt/de/`: the SNBT reader: numbers, typed arrays, strings, and whole values;
  `names.rs` holds the table of Unicode character names that `\N{name}` escapes look up.
- `src/nbt/snbt/ser.rs`: the SNBT writer, for every tag that holds no float; `reread.rs`:
  reading its text back gives the tag again, for integers, typed arrays and lists of them.
- `src/nbt/buffers.rs`, `reading.rs`, `cesu8.rs`: the calls into `bytes`, `std::io::Cursor`
  and `simd_cesu8`.
- `app/lib.rs`: what needs floating point or `Display`: float tags, the `Display` of SNBT
  (floats, and lists and compounds that hold them, around the library's writer), and
  turning the float literals that the SNBT reader keeps as text into numbers.
