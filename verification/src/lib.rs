//! Decoder for the constant-pool entries and attributes of JVM class files.
//!
//! Every decoder reads from a forward-only byte cursor and is specified
//! against a grammar written over plain byte sequences.

pub mod classes;
pub mod classloader;
pub mod cursor;
pub mod grammar;
pub mod laws;
pub mod utf8;
