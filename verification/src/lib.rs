//! Encoding and decoding of the control records exchanged with the susfs
//! kernel extension.

pub mod magic;
pub mod cstr;
pub mod number;
pub mod stat;
pub mod record;
pub mod command;
pub mod cli;
pub mod encode;
pub mod wire;
pub mod decode;
pub mod transport;
