//! The ownership and lifetime boundary of a natural-language document and
//! lint engine: opaque document and lint handles, UTF-8 boundary-string
//! marshalling, and null- and bounds-safe accessors, with every sentinel
//! and marshalling contract stated and proved.

mod document;
mod lints;
mod marshal;
mod version;

pub use document::harper_create_document;
pub use document::lemma_document_text_round_trip;
pub use document::spans_in_bounds;
pub use document::harper_free_document;
pub use document::harper_get_document_text;
pub use document::harper_get_token_count;
pub use document::harper_get_token_text;
pub use document::Document;
pub use document::Span;
pub use lints::harper_free_lints;
pub use lints::harper_get_lint_end;
pub use lints::harper_get_lint_message;
pub use lints::harper_get_lint_start;
pub use lints::harper_get_lints;
pub use lints::Lint;
pub use marshal::from_internal;
pub use marshal::lemma_marshalled_deterministic;
pub use marshal::marshalled;
pub use marshal::opt_bytes;
pub use marshal::to_internal;
pub use marshal::MarshalError;
pub use version::harper_get_core_version;
pub use version::harper_get_lib_version;
