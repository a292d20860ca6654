//! The query parameters that the verse and book endpoints take.

pub use crate::models::{TranslationSelector, VerseFilter};
