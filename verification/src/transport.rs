//! What is handed to the kernel side in one call.
//!
//! The call itself is made elsewhere: it passes the two magic values, the
//! identifier of the command and the address of the record's bytes, and
//! looks at nothing that is returned. All that the kernel side answers, it
//! writes into those bytes.

use vstd::prelude::*;
use crate::encode::Request;
use crate::magic::{KSU_INSTALL_MAGIC1, SUSFS_MAGIC};

verus! {

/// The arguments of one call.
#[derive(Debug, PartialEq, Eq)]
pub struct Call {
    /// Selects the channel.
    pub magic1: u64,
    /// Names the protocol.
    pub magic2: u64,
    /// The identifier of the command.
    pub cmd: u64,
    /// The bytes of the record, whose address is passed.
    pub record: Vec<u8>,
}

impl Request {
    /// The call that carries this request.
    pub fn call(&self) -> (c: Call)
        ensures
            c.magic1 == KSU_INSTALL_MAGIC1,
            c.magic2 == SUSFS_MAGIC,
            c.cmd == self.command.id(),
            c.record@ == self.record.wire(),
            c.record@.len() == self.record.kind().size(),
    {
        Call {
            magic1: KSU_INSTALL_MAGIC1,
            magic2: SUSFS_MAGIC,
            cmd: self.command.id(),
            record: self.record.to_bytes(),
        }
    }
}

} // verus!
