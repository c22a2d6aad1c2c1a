//! Unit conversion tables and the small utilities that sit beside them:
//! bulk conversion of a grid of text cells, byte digests, a regular
//! expression runner and an image re-encoder.
//!
//! Formulas are data here: each is a short list of steps over integer
//! constants. Evaluating them in floating point is left to the caller,
//! which hands the grid converter a closure for one cell.

mod digest;
mod exact;
mod formula;
mod grid;
mod pattern;
mod picture;
mod text;
mod units;

pub use digest::{hash_file_bytes, lemma_digest_deterministic, lemma_hex_text_len};
pub use exact::lemma_round_trip;
pub use formula::{formula_of, lookup, Op, Ratio};
pub use grid::{convert_columns, convert_grid, rounding_of, ConvertError, Rounding};
pub use pattern::{
    keep_present, regex_flags, run_regex, MatchResult, RegexFlags, RegexResponse,
};
pub use picture::{
    compress_image, data_field, lemma_png_ignores_quality, output_kind, CompressError,
    CompressedResult, OutputKind,
};
pub use text::{has_char, same_text};
pub use units::{unit_of, Unit};
