//! The ZX Interface 1 memory extension.
use vstd::prelude::*;

use std::rc::Rc;

use crate::formats::stream::read_exact;
use crate::memory::{ExRom, MemoryExtension, ZxMemory};

verus! {

/// The ZX Interface 1 memory [extension][MemoryExtension].
///
/// Interface 1 ROM is paged in if the processor executes the instruction at address `0x0008` or `0x1708`,
/// the error handler and `CLOSE #` routines. It is paged out after the Z80 executes the `RET` at address `0x0700`.
#[derive(Clone, Debug)]
pub struct ZxInterface1MemExt {
    exrom: ExRom,
}

/// Shares the bytes of `data` as an EX-ROM bank.
#[verifier::external_body]
fn exrom_from_vec(data: Vec<u8>) -> (r: ExRom)
    ensures r@ == data@,
{
    Rc::from(data)
}

impl ZxInterface1MemExt {
    /// The bytes of the EX-ROM bank.
    pub closed spec fn spec_exrom(&self) -> Seq<u8> {
        self.exrom@
    }

    /// Provide a reader with 8kb of ZX Interface 1 ROM program code.
    ///
    /// The EX-ROM bank is 16kb: the code goes into its first half and the rest is filled with
    /// `0xFF`. On an error the bank is left as it was.
    pub fn load_if1_rom<R: std::io::Read>(&mut self, rd: R) -> (r: Result<(), std::io::Error>)
        ensures
            r is Ok ==> {
                &&& final(self).spec_exrom().len() == 0x4000
                &&& forall|i: int| 0x2000 <= i < 0x4000 ==> #[trigger] final(self).spec_exrom()[i] == 0xFF
            },
            r is Err ==> final(self).spec_exrom() == old(self).spec_exrom(),
    {
        let mut rd = rd;
        let mut rom: Vec<u8> = vec![0xFFu8; 0x4000];
        let res = {
            let (code, _rest) = rom.as_mut_slice().split_at_mut(0x2000);
            read_exact(&mut rd, code)
        };
        match res {
            Ok(()) => {
                self.exrom = exrom_from_vec(rom);
                Ok(())
            },
            Err(e) => Err(e),
        }
    }

    /// Returns a reference to the EX-ROM bank.
    pub fn exrom(&self) -> (r: &ExRom)
        ensures r@ == self.spec_exrom(),
    {
        &self.exrom
    }

    /// Removes data from the EX-ROM bank.
    ///
    /// # Note
    /// If the EX-ROM bank has been paged in, it won't be paged out automatically after the EX-ROM data
    /// is cleared from the extension.
    pub fn clear_exrom(&mut self)
        ensures final(self).spec_exrom().len() == 0,
    {
        self.exrom = exrom_from_vec(Vec::new());
    }
}

impl Default for ZxInterface1MemExt {
    fn default() -> (r: Self)
        ensures r.spec_exrom().len() == 0,
    {
        ZxInterface1MemExt { exrom: exrom_from_vec(Vec::new()) }
    }
}

impl MemoryExtension for ZxInterface1MemExt {
    /// Pages the EX-ROM in at `0x0008` and `0x1708`, and out after reading the op-code at `0x0700`.
    fn read_opcode<M: ZxMemory>(&mut self, pc: u16, memory: &mut M) -> (r: u8) {
        if pc == 0x0008 || pc == 0x1708 {
            let _ = memory.map_exrom(self.exrom.clone(), 0);
        } else if pc == 0x0700 {
            let res = memory.read(pc);
            memory.unmap_exrom(&self.exrom);
            return res;
        }
        memory.read(pc)
    }
}

} // verus!
