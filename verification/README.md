# dtu

Verified core of a toolkit for analysing Android devices.

- `src/unknownbool.rs`: `UnknownBool`, a three-valued boolean with its numeric
  database encoding and its `&` / `|` operators.
- `src/utils/class_name.rs`: `ClassName`, one type for Java (`a.b.C`) and smali
  (`La/b/C;`) class names, with conversions, simple names and packages.
- `src/utils/device_path.rs`: `DevicePath`, a path on the device together with
  its squashed single-file-name form (`/` becomes `%`, a literal `%` becomes `\%`).
- `src/utils/mod.rs`: the character replacement with escaping and its inverse.
- `src/text.rs`: character-level string helpers (search, trim, split).
- `src/db/`: database rows (`device.rs`, `graph.rs`) and the values built from them.

Every function in `src/` carries a contract. Verus checks all of them except
`text::push_char`, a trusted wrapper around `String::push`; the `lemma_*`
proof functions state the properties that hold across calls (round trips of
the encodings, the algebra of `UnknownBool`, equality of class names in either
form, and so on).

`app/` holds copies of the value types that carry serde, schemars and diesel
impls and `Display`, converting to and from the library's types.
