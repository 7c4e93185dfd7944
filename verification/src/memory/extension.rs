//! Memory paging extensions.
use vstd::prelude::*;

use super::ZxMemory;

verus! {

/// An interface for memory paging extensions of [ZxMemory].
pub trait MemoryExtension {
    /// Read op-code from the given `memory` at the given `pc` address, optionally altering provided memory.
    fn read_opcode<M: ZxMemory>(&mut self, pc: u16, memory: &mut M) -> (r: u8) {
        memory.read(pc)
    }
    /// Writes to the memory extension port. Should return optionally modified `data` if the extension wants
    /// to influence some other chipset functions.
    fn write_io<M: ZxMemory>(&mut self, port: u16, data: u8, memory: &mut M) -> (r: u8)
        default_ensures
            r == data,
    {
        data
    }
    /// Reads from the memory extension port.
    fn read_io<M: ZxMemory>(&mut self, port: u16, memory: &mut M) -> (r: u8)
        default_ensures
            r == u8::MAX,
    {
        u8::MAX
    }
}

/// A placeholder memory extension. Usefull as a default.
#[derive(Clone, Copy, Default, Debug)]
pub struct NoMemoryExtension;

impl MemoryExtension for NoMemoryExtension {
}

} // verus!
