//! Safe, verified access layer for AGC multi-genome archives.
//!
//! The native engine is reached through raw pointers and sentinel codes. This
//! library holds every decision taken at that boundary as verified code over
//! plain values: which bytes cross it, how a sentinel becomes a typed error,
//! how a returned buffer becomes text, and when a handle may be released.
mod decode;
mod error;
mod handle;
mod listing;
mod query;
mod text;

pub use decode::lossy_text;
pub use listing::{
    entry_bytes, present_entries, listed_names, collect_names, lemma_listing_count,
    lemma_listing_depends_on_bytes,
};
pub use handle::{AgcFile, closes, open_request, lemma_close_releases_once};
pub use error::{AgcError, same_name, is_not_found, is_fetch_failure, owned_name};
pub use query::{
    range_buffer_len, sequence_buffer, sequence_outcome, length_outcome, reference_outcome,
    lemma_sequence_within_range,
};
pub use text::{to_c_text, to_c_text_opt, no_nul, no_nul_char, lemma_nul_byte_iff_nul_char};
