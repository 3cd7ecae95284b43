//! A register-oriented bytecode intermediate representation: a closed
//! instruction schema, a byte-stream encoder, a bounds-checked decoder,
//! an unchecked decoder whose safety rests on proved contracts instead of
//! runtime checks, and the executor protocol for multi-word store
//! instructions.

pub mod codec;
pub mod decode;
pub mod encode;
pub mod error;
pub mod laws;
pub mod op;
pub mod prim;
pub mod store;
pub mod wire;
