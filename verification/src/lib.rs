//! A source-to-source rewriter for arithmetic expressions.
//!
//! Given the syntax tree of an expression written with ordinary infix
//! operators, the rewriter replaces every arithmetic operator occurrence
//! (`+ - * / % << >>`) with an explicit overflow-handling call, according to
//! one of four selectable policies: panic on overflow, wrap on overflow,
//! saturate on overflow, or produce an optional result that is absent on
//! overflow.
//!
//! The rewriter works purely on trees: parsing source text into a tree and
//! splicing generated text back into a surrounding program are the host's
//! concern.  [`ast`] holds the tree model and the error taxonomy,
//! [`rewrite`] the traversal and the per-policy operator rules, [`render`]
//! the printing of a rewritten tree as source text, and [`laws`] the proved
//! statements about the rewrite as a whole.

pub mod ast;
pub mod laws;
pub mod render;
pub mod rewrite;
