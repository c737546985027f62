//! A document-analysis engine for the fish shell language, written for a
//! language-intelligence server: it extracts user-defined function and
//! variable names from document text, validates structural syntax rules,
//! and merges the results into a completion catalog.
//!
//! Every analysis pass is a pure function of the full current document
//! text; the only shared state is the lock-guarded symbol cache in
//! [`state`].

pub mod cli;
pub mod completions;
pub mod extractor;
pub mod lines;
pub mod patterns;
pub mod state;
pub mod validator;
