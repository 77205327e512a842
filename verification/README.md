# gummy alignment

The CSS box-alignment values of a layout engine (`align-items`, `align-self`,
`justify-items`, `justify-self`, `align-content`, `justify-content`), verified with Verus.

- `src/style/alignment.rs`: the six value types, the `safe` overflow-position modifier,
  self-relative resolution, right-to-left reversal, `Default` and the item-to-self conversions.
- `src/style/parse.rs`: the CSS syntax of the values (an optional `safe`/`unsafe` and a
  keyword, ASCII case-insensitive), on top of the `cssparser` tokenizer (`src/css.rs`).
- `src/compute/common/alignment.rs`: the decisions taken during layout: overflow fallbacks for
  self and content alignment, and the rule that gives each item's content offset.
- `src/style/laws.rs`, `src/style/parse_laws.rs`: the properties proved of these functions.
- `app/`: the parts that work on `f32` lengths and the serde forms of the types.
