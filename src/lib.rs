//! Lazy composition of arithmetic expressions: operands and operators build a tree of
//! pending operations, and one `fold` evaluates it bottom-up into result slots, either owned
//! by the nodes or borrowed from a fixed pool.
pub mod complex;
pub mod tree;
pub mod pooled;
