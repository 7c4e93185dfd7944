//! Tape, snapshot and other file formats of ZX Spectrum software.
use vstd::prelude::*;

pub mod ay;
pub mod scr;
pub mod sna;
pub mod snapshot;
pub mod stream;
pub mod tap;
pub mod tzx;
pub mod z80;

use stream::{new_io_error, read_byte, ByteRead, IoErrorKind};

verus! {

/// Reads bytes from `rd` into `buf` until it is full or the source ends, returning the number of
/// bytes read; the bytes of `buf` past them stay as they were.
pub fn read_exact_or_to_end<R: std::io::Read>(rd: &mut R, buf: &mut [u8]) -> (r: Result<usize, std::io::Error>)
    ensures
        final(buf)@.len() == old(buf)@.len(),
        (r matches Ok(n) ==> n <= old(buf)@.len() && final(buf)@.subrange(n as int, old(buf)@.len() as int)
            == old(buf)@.subrange(n as int, old(buf)@.len() as int)),
        old(buf)@.len() == 0 ==> r matches Ok(0usize),
{
    let mut n: usize = 0;
    while n < buf.len()
        invariant
            n <= buf@.len(),
            buf@.len() == old(buf)@.len(),
            buf@.subrange(n as int, buf@.len() as int) == old(buf)@.subrange(
                n as int,
                old(buf)@.len() as int,
            ),
        decreases buf@.len() - n,
    {
        match read_byte(rd) {
            ByteRead::Byte(b) => {
                let ghost prev = buf@;
                buf[n] = b;
                proof {
                    assert forall|i: int| n + 1 <= i < buf@.len() implies buf@[i] == old(buf)@[i] by {
                        assert(prev.subrange(n as int, prev.len() as int)[i - n] == old(buf)@.subrange(
                            n as int,
                            old(buf)@.len() as int,
                        )[i - n]);
                    }
                }
                n = n + 1;
                proof {
                    assert(buf@.subrange(n as int, buf@.len() as int) =~= old(buf)@.subrange(
                        n as int,
                        old(buf)@.len() as int,
                    ));
                }
            },
            ByteRead::End => {
                return Ok(n);
            },
            ByteRead::Failed(e) => {
                return Err(e);
            },
        }
    }
    Ok(n)
}

/// What reading into a buffer of `len` bytes tells when `n` bytes came before the source
/// ended: `Some(false)` when none came, `Some(true)` when the buffer was filled, and `None`
/// when the source ended before it was full.
pub open spec fn spec_exact_read_outcome(n: int, len: int) -> Option<bool> {
    if n == 0 {
        Some(false)
    } else if n == len {
        Some(true)
    } else {
        None
    }
}

/// Returns what reading into a buffer of `len` bytes tells when `n` bytes came before the source
/// ended (see [spec_exact_read_outcome]).
pub fn exact_read_outcome(n: usize, len: usize) -> (r: Option<bool>)
    requires
        n <= len,
    ensures
        r == spec_exact_read_outcome(n as int, len as int),
{
    if n == 0 {
        Some(false)
    } else if n == len {
        Some(true)
    } else {
        None
    }
}

/// Fills the whole of `buf` from `rd`: returns `Ok(true)` when it was filled, `Ok(false)` when
/// the source had no byte left, and an error of the kind `UnexpectedEof` when the source ended
/// before `buf` was full (see [exact_read_outcome]).
pub fn read_exact_or_none<R: std::io::Read>(rd: &mut R, buf: &mut [u8]) -> (r: Result<bool, std::io::Error>)
    ensures
        final(buf)@.len() == old(buf)@.len(),
        (r matches Ok(false) ==> final(buf)@ == old(buf)@),
        (r matches Ok(true) ==> old(buf)@.len() > 0),
        old(buf)@.len() == 0 ==> r matches Ok(false),
{
    let n = match read_exact_or_to_end(rd, buf) {
        Ok(n) => n,
        Err(e) => {
            return Err(e);
        },
    };
    match exact_read_outcome(n, buf.len()) {
        Some(false) => {
            proof {
                assert(buf@ =~= buf@.subrange(0, buf@.len() as int));
                assert(old(buf)@ =~= old(buf)@.subrange(0, old(buf)@.len() as int));
            }
            Ok(false)
        },
        Some(true) => Ok(true),
        None => Err(new_io_error(IoErrorKind::UnexpectedEof, "failed to fill whole buffer")),
    }
}

} // verus!
