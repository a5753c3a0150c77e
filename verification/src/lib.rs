//! Leveled diagnostic lines and the rewriting of function items into
//! functions that announce themselves when called.

pub mod attributes;
pub mod decimal;
pub mod declaration;
pub mod definition;
pub mod function;
pub mod level;
pub mod statement;
pub mod syntax;
pub mod tokens;
