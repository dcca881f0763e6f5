//! A runtime translation-lookup layer for internationalisation.
//!
//! A [`Translator`] holds a registry of locales and at most one active
//! locale. Given a `(prefix, text)` pair it resolves the best-known
//! translation, falling back to the original text whenever no locale is
//! active or the composite key is missing. Positional `{}` placeholder
//! substitution is applied after lookup, and a substitution failure is
//! absorbed into an empty string at the combined entry point, so that a
//! translation call never fails its caller.

pub mod formatting;
pub mod laws;
pub mod locale;
pub mod translator;

pub use formatting::FormatError;
pub use locale::composite_key;
pub use locale::Locale;
pub use translator::Translator;
