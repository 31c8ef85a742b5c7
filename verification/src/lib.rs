//! Validation and unlock-code derivation for `Name#Digits` identifiers.
//!
//! The library keeps a small mutable session ([`app::App`]) holding the
//! identifier buffer, a case-folding flag, a version tag and a transient
//! "copied" deadline.  A validator checks the `Name#Digits` grammar, a
//! deterministic transform derives a Base64 unlock code from the identifier
//! plus a fixed configuration suffix, and a verification transform decodes a
//! candidate code and matches it against the expected plaintexts.  A pure
//! dispatcher maps key events to session mutations or commands; the
//! surrounding program performs the clipboard and terminal work.

pub mod app;
pub mod input;
pub mod laws;
pub mod text;
pub mod transcode;
