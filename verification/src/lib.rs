//! Generates a `tsconfig.json` from the answers to six questions.
//!
//! The crate does no input and no output. It names the questions and keeps
//! the answers ([`collector`], [`options`]), folds the answers into the
//! document ([`synth`]), renders it as text and says where the text goes
//! ([`output`]). What the document holds is defined in [`document`] over the
//! JSON model of [`json`]; [`laws`] proves what holds of it for all answers.
//! The calls into `serde_json` are gathered in [`backend`].

pub mod json;
pub mod backend;
pub mod options;
pub mod document;
pub mod synth;
pub mod error;
pub mod output;
pub mod collector;
pub mod laws;
