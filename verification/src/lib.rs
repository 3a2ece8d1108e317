//! Argument parsing for a line-oriented text-search command.
//!
//! The crate models the command line `prog [OPTION...] PATTERN FILE [FILE...]`:
//! a registry of the supported options, a tokenizer that classifies one raw
//! token, appliers that validate and record an option's effect, a driver that
//! walks the token list, and a renderer for the usage text.

pub mod applier;
pub mod args;
pub mod errors;
pub mod help;
pub mod laws;
pub mod numeric;
pub mod parser;
pub mod registry;
pub mod strutil;
pub mod tokenizer;
