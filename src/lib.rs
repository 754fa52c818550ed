//! Pretty printing of JSON log lines: each line that parses as JSON is
//! rendered as indented text whose tokens carry 24-bit terminal colors; any
//! other line is handed back unchanged.

mod ansi;
mod json;
mod laws;
mod palette;
mod render;
mod session;

pub use ansi::{decimal, digit, paint};
pub use json::{models, nests_below, parse_json, value_model, Json};
pub use laws::{
    fields_text, is_ws, items_text, json_text, lemma_render_is_json_text,
    lemma_scalar_renders_as_text, scalar_token, strip_ws,
};
pub use palette::{lookup, scheme_named, scheme_names, Color, ColorScheme, Token};
pub use render::{
    formatted, indent, indent_text, lemma_nests_below_mono, quoted, render, render_fields,
    render_items, tint, FormatService,
};
pub use session::{open_session, Action};
