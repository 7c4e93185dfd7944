//! **TAP** tape format: chunks, headers, and the pulse encoding and decoding of tape blocks.
use vstd::prelude::*;

pub mod pulse;
pub mod read;
pub mod write;

verus! {

/// The flag byte of a header block.
pub const HEAD_BLOCK_FLAG: u8 = 0x00;
/// The flag byte of a data block.
pub const DATA_BLOCK_FLAG: u8 = 0xFF;
/// The size of a *TAP* chunk holding a header: the flag, 17 bytes of the header and the checksum.
pub const HEADER_SIZE: usize = 19;

/// The bitwise XOR of the bytes of `data`.
pub open spec fn spec_checksum(data: Seq<u8>) -> u8
    decreases data.len(),
{
    if data.len() == 0 {
        0
    } else {
        spec_checksum(data.drop_last()) ^ data.last()
    }
}

/// Returns the checksum of `data`: the bitwise XOR of its bytes.
pub fn checksum(data: &[u8]) -> (r: u8)
    ensures
        r == spec_checksum(data@),
{
    let mut c: u8 = 0;
    let mut i: usize = 0;
    while i < data.len()
        invariant
            i <= data@.len(),
            c == spec_checksum(data@.subrange(0, i as int)),
        decreases data@.len() - i,
    {
        proof {
            assert(data@.subrange(0, i + 1).drop_last() =~= data@.subrange(0, i as int));
        }
        c = c ^ data[i];
        i = i + 1;
    }
    assert(data@.subrange(0, data@.len() as int) =~= data@);
    c
}

/// The types of the blocks a *TAP* header describes.
#[derive(Debug, Clone, Copy, PartialEq, Eq, Hash, Structural)]
pub enum BlockType {
    Program,
    NumberArray,
    CharArray,
    Code,
}

/// The block type of the type byte `b`, if there is one.
pub open spec fn spec_block_type(b: u8) -> Option<BlockType> {
    if b == 0 {
        Some(BlockType::Program)
    } else if b == 1 {
        Some(BlockType::NumberArray)
    } else if b == 2 {
        Some(BlockType::CharArray)
    } else if b == 3 {
        Some(BlockType::Code)
    } else {
        None
    }
}

/// The type byte of `t`.
pub open spec fn spec_block_type_byte(t: BlockType) -> u8 {
    match t {
        BlockType::Program => 0,
        BlockType::NumberArray => 1,
        BlockType::CharArray => 2,
        BlockType::Code => 3,
    }
}

/// The header of a *TAP* block: the block type, its name, its length and two parameters.
#[derive(Debug, Clone, Copy, PartialEq, Eq, Hash)]
pub struct Header {
    pub length: u16,
    pub block_type: BlockType,
    pub name: [u8; 10],
    pub par1: [u8; 2],
    pub par2: [u8; 2],
}

/// The 17 bytes of the header `h`, in the order of the tape.
pub open spec fn spec_header_bytes(h: Header) -> Seq<u8> {
    seq![spec_block_type_byte(h.block_type)] + h.name@ + seq![(h.length % 256) as u8, (h.length / 256) as u8]
        + h.par1@ + h.par2@
}

/// The header the 17 bytes `b` hold, if their type byte is that of a block type.
pub open spec fn spec_header_of(b: Seq<u8>) -> Option<Header> {
    match spec_block_type(b[0]) {
        Some(block_type) => Some(
            Header {
                length: (b[11] + b[12] * 256) as u16,
                block_type,
                name: [b[1], b[2], b[3], b[4], b[5], b[6], b[7], b[8], b[9], b[10]],
                par1: [b[13], b[14]],
                par2: [b[15], b[16]],
            },
        ),
        None => None,
    }
}

impl Header {
    /// Makes the header of the 17 bytes `b`.
    ///
    /// Returns `None` when `b` is not 17 bytes long or its type byte is that of no block type.
    pub fn from_bytes(b: &[u8]) -> (r: Option<Header>)
        ensures
            b@.len() != 17 ==> r is None,
            b@.len() == 17 ==> r == spec_header_of(b@),
    {
        if b.len() != 17 {
            return None;
        }
        let block_type = match b[0] {
            0 => BlockType::Program,
            1 => BlockType::NumberArray,
            2 => BlockType::CharArray,
            3 => BlockType::Code,
            _ => return None,
        };
        Some(Header {
            length: b[11] as u16 + b[12] as u16 * 256,
            block_type,
            name: [b[1], b[2], b[3], b[4], b[5], b[6], b[7], b[8], b[9], b[10]],
            par1: [b[13], b[14]],
            par2: [b[15], b[16]],
        })
    }

    /// Returns the 17 bytes of the header, in the order of the tape.
    pub fn to_bytes(&self) -> (r: Vec<u8>)
        ensures
            r@ == spec_header_bytes(*self),
    {
        let t: u8 = match self.block_type {
            BlockType::Program => 0,
            BlockType::NumberArray => 1,
            BlockType::CharArray => 2,
            BlockType::Code => 3,
        };
        let r: Vec<u8> = vec![
            t, self.name[0], self.name[1], self.name[2], self.name[3], self.name[4], self.name[5],
            self.name[6], self.name[7], self.name[8], self.name[9], (self.length % 256) as u8,
            (self.length / 256) as u8, self.par1[0], self.par1[1], self.par2[0], self.par2[1],
        ];
        assert(r@ =~= spec_header_bytes(*self));
        r
    }

    /// Returns the *TAP* chunk of the header: the header flag, its 17 bytes and the checksum.
    pub fn to_tap_chunk(&self) -> (r: Vec<u8>)
        ensures
            r@.len() == HEADER_SIZE,
            r@ == seq![HEAD_BLOCK_FLAG] + spec_header_bytes(*self) + seq![spec_checksum(
                seq![HEAD_BLOCK_FLAG] + spec_header_bytes(*self),
            )],
    {
        let mut r: Vec<u8> = vec![HEAD_BLOCK_FLAG];
        let bytes = self.to_bytes();
        let mut i: usize = 0;
        while i < bytes.len()
            invariant
                i <= bytes@.len(),
                r@ == seq![HEAD_BLOCK_FLAG] + bytes@.subrange(0, i as int),
            decreases bytes@.len() - i,
        {
            r.push(bytes[i]);
            proof {
                assert(bytes@.subrange(0, i + 1) =~= bytes@.subrange(0, i as int).push(bytes@[i as int]));
            }
            i = i + 1;
        }
        assert(bytes@.subrange(0, bytes@.len() as int) =~= bytes@);
        let c = checksum(r.as_slice());
        r.push(c);
        r
    }
}

/// A header read back from the 17 bytes it is written as is that header.
pub proof fn lemma_header_round_trip(h: Header)
    ensures
        spec_header_bytes(h).len() == 17,
        spec_header_of(spec_header_bytes(h)) == Some(h),
{
    let b = spec_header_bytes(h);
    assert(b[0] == spec_block_type_byte(h.block_type));
    assert(h.name@.len() == 10 && h.par1@.len() == 2 && h.par2@.len() == 2);
    let hb = spec_header_of(b)->0;
    assert(hb.name =~= h.name);
    assert(hb.par1 =~= h.par1);
    assert(hb.par2 =~= h.par2);
}

/// What a *TAP* chunk holds.
#[derive(Debug, Clone, Copy, PartialEq, Eq, Hash)]
pub enum TapChunkInfo {
    /// A header block.
    Head(Header),
    /// A data block: the length of its data and its checksum (0 when it is right).
    Data { length: u16, checksum: u8 },
    /// A block of another kind, or one whose header is broken.
    Unknown { size: u16, flag: u8 },
    /// A chunk of no bytes.
    Empty,
}

} // verus!
