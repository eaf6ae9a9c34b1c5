//! A host-state virtualization layer that runs a guest bytecode module inside an
//! embedded interpreter and offers it the same register-based host interface that
//! the outer sandbox offers the embedding contract.
pub mod embedding;
pub mod engine;
pub mod gas;
pub mod guest;
pub mod host;
pub mod kernel;
pub mod payload;
pub mod registers;
pub mod trampolines;
