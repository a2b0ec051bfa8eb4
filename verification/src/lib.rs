//! Core logic of a guided `git add` / `commit` / `push` helper.
//!
//! The decisions the tool makes — which status entries are pre-selected,
//! which entries are hidden, which shell profile receives the alias, how
//! the push refspec is spelled — live here as verified functions over
//! plain values. Terminal prompts and the actual Git operations are
//! performed by the surrounding binary, which converts between the Git
//! library's types and the plain types used here.

pub mod alias;
pub mod choices;
pub mod workflow;
pub mod status;
pub mod text;
