# nvpair

Owned Rust values for illumos name-value lists (libnvpair `nvlist_t`),
verified with Verus.

- `src/` — the verified library: the value types (`NvList`, `NvValue`),
  look-up by name, the data-type dispatch (`value_kind`), the decoding of
  what was read from C (`RawNvList`) into owned values (`decode_nvlist`),
  a deep `Clone`, and the proved laws (`laws.rs`).
- `app/` — the FFI layer: `nvlist_to_rust` walks a C nvlist through
  `nvpair-sys`, reads each pair with the accessor that `value_kind` names,
  and hands the result to `decode_nvlist`.
- `tests/` — the library's tests.

A `double` value is held by its IEEE-754 bit pattern (`f64::to_bits`).
