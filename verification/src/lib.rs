//! A source-to-source function rewriter for conditionally traced parsers.
//!
//! Given the syntactic description of a function — its name, parameter list,
//! return type and body — the rewriter produces a new function with the same
//! signature whose body consists of two mutually exclusive build-gated
//! blocks: one holding the original statements untouched, the other wrapping
//! them between a begin-trace and an end-trace hook call, threading the
//! function's first parameter and an opaque depth token through the hooks.

pub mod ast;
pub mod laws;
pub mod render;
pub mod rewrite;
