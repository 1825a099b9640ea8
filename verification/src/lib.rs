//! Evaluation of arithmetic expressions given as flat text: numbers, the
//! operators `+ - * / ^`, parentheses and eight named functions.
//!
//! A range of the text is split at the construct that binds most loosely,
//! and what the split yields is split in turn, until literals are left. The
//! library finds the splits, checks the literals and names, and hands out
//! the expression as a tree over the offsets of the text; it holds no
//! floating-point number, so the arithmetic on the tree is the caller's.

pub mod chars;
pub mod error;
pub mod eval;
pub mod expr;
pub mod function;
pub mod number;
pub mod operator;
pub mod scanner;
pub mod shell;
