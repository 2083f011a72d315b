//! A small demonstration of lexical variable shadowing: one name, three
//! bindings, four output lines. The library computes the demonstration's
//! output; printing it is left to the caller.

pub mod decimal;
pub mod demo;
