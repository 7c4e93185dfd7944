//! Reading *TAP* chunks.
use vstd::prelude::*;

use crate::formats::read_exact_or_none;
use crate::formats::sna::le16;
use crate::formats::stream::{new_io_error, read_some, seek_current, seek_start, IoErrorKind};
use crate::formats::tap::pulse::consts::PAUSE_PULSE_LENGTH;
use crate::formats::tap::pulse::ReadEncPulseIter;
use crate::formats::tap::{
    checksum, spec_checksum, spec_header_of, Header, TapChunkInfo, DATA_BLOCK_FLAG, HEADER_SIZE, HEAD_BLOCK_FLAG,
};

verus! {

/// A reader of the data of *TAP* chunks: it reads only up to the end of the current chunk.
#[derive(Debug)]
pub struct TapChunkReader<R> {
    /// The checksum of the bytes read with [TapChunkReader::read_chunk] (and `std::io::Read`)
    /// since the start of the chunk.
    pub checksum: u8,
    next_pos: u64,
    chunk_index: u32,
    limit: u64,
    inner: R,
}

impl<R> TapChunkReader<R> {
    /// The position of the next chunk in the underlying stream.
    pub closed spec fn spec_next_pos(&self) -> u64 {
        self.next_pos
    }

    /// The number of the current chunk: 0 before the first one.
    pub closed spec fn spec_chunk_no(&self) -> u32 {
        self.chunk_index
    }

    /// The number of bytes of the current chunk not read yet.
    pub closed spec fn spec_limit(&self) -> u64 {
        self.limit
    }

    /// The checksum of the bytes read since the start of the chunk.
    pub closed spec fn spec_sum(&self) -> u8 {
        self.checksum
    }

    /// The underlying reader.
    pub closed spec fn spec_inner(&self) -> R {
        self.inner
    }

    /// A chunk holds no more bytes than its 16-bit length says.
    pub closed spec fn spec_wf(&self) -> bool {
        self.limit <= 0xFFFF
    }

    /// Returns the wrapped reader.
    pub fn into_inner(self) -> (r: R)
        ensures
            r == self.spec_inner(),
    {
        self.inner
    }

    /// Returns a reference to the underlying reader.
    pub fn get_ref(&self) -> (r: &R)
        ensures
            *r == self.spec_inner(),
    {
        &self.inner
    }

    /// Returns a mutable reference to the underlying reader.
    pub fn get_mut(&mut self) -> (r: &mut R)
        ensures
            *r == old(self).spec_inner(),
            final(self).spec_inner() == *final(r),
            final(self).spec_limit() == old(self).spec_limit(),
            final(self).spec_chunk_no() == old(self).spec_chunk_no(),
            final(self).spec_next_pos() == old(self).spec_next_pos(),
            final(self).spec_sum() == old(self).spec_sum(),
            final(self).spec_wf() == old(self).spec_wf(),
    {
        &mut self.inner
    }

    /// Returns this chunk's number.
    ///
    /// The first chunk's number is 1. If this method returns 0 the cursor is at the beginning of a file,
    /// before the first chunk.
    pub fn chunk_no(&self) -> (r: u32)
        ensures
            r == self.spec_chunk_no(),
    {
        self.chunk_index
    }

    /// Returns this chunk's remaining bytes to be read.
    pub fn chunk_limit(&self) -> (r: u16)
        requires
            self.spec_wf(),
        ensures
            r == self.spec_limit(),
    {
        self.limit as u16
    }

    /// Repositions the reader to the start of a file and sets the chunk's limit to 0.
    /// To read the first chunk call [TapChunkReader::next_chunk] first.
    pub fn rewind(&mut self)
        ensures
            final(self).spec_limit() == 0,
            final(self).spec_sum() == 0,
            final(self).spec_chunk_no() == 0,
            final(self).spec_next_pos() == 0,
            final(self).spec_inner() == old(self).spec_inner(),
            final(self).spec_wf(),
    {
        self.limit = 0;
        self.checksum = 0;
        self.chunk_index = 0;
        self.next_pos = 0;
    }
}

impl<R: std::io::Read + std::io::Seek> TapChunkReader<R> {
    /// Creates a reader of the *TAP* chunks of `rd` from its start.
    pub fn new(rd: R) -> (r: Self)
        ensures
            r.spec_limit() == 0,
            r.spec_sum() == 0,
            r.spec_chunk_no() == 0,
            r.spec_next_pos() == 0,
            r.spec_inner() == rd,
            r.spec_wf(),
    {
        TapChunkReader { next_pos: 0, chunk_index: 0, checksum: 0, limit: 0, inner: rd }
    }

    /// Creates a new instance of [TapChunkReader] from the reader with an assumption that the next
    /// two bytes read from it will form the next chunk header.
    ///
    /// `chunk_no` should be the chunk number of the previous chunk.
    pub fn try_from_current(rd: R, chunk_no: u32) -> (r: Result<Self, std::io::Error>)
        ensures
            (r matches Ok(rd) ==> rd.spec_limit() == 0 && rd.spec_sum() == 0 && rd.spec_chunk_no() == chunk_no
                && rd.spec_wf()),
    {
        let mut rd = rd;
        let next_pos = match seek_current(&mut rd, 0) {
            Ok(pos) => pos,
            Err(e) => return Err(e),
        };
        Ok(TapChunkReader { next_pos, chunk_index: chunk_no, checksum: 0, limit: 0, inner: rd })
    }

    /// Forwards the reader to the position of the next *TAP* chunk.
    ///
    /// Returns `Ok(None)` if the end of the file has been reached.
    ///
    /// On success returns `Ok(size)` in bytes of the next *TAP* chunk and limits the reader to
    /// that size. Also clears [TapChunkReader::checksum].
    ///
    /// # Errors
    /// `UnexpectedEof` when the stream ends before the position of the next chunk;
    /// `InvalidData` when the counters would overflow; the errors of the stream.
    pub fn next_chunk(&mut self) -> (r: Result<Option<u16>, std::io::Error>)
        ensures
            final(self).spec_wf() || !old(self).spec_wf(),
            r matches Ok(Some(size)) ==> final(self).spec_chunk_no() == old(self).spec_chunk_no() + 1
                && final(self).spec_limit() == size && final(self).spec_next_pos() == old(self).spec_next_pos()
                + size + 2 && final(self).spec_sum() == 0 && final(self).spec_wf(),
            r matches Ok(None) ==> final(self).spec_limit() == 0 && final(self).spec_chunk_no()
                == old(self).spec_chunk_no() && final(self).spec_next_pos() == old(self).spec_next_pos()
                && final(self).spec_wf(),
            r is Err ==> final(self).spec_limit() == old(self).spec_limit() && final(self).spec_chunk_no()
                == old(self).spec_chunk_no() && final(self).spec_next_pos() == old(self).spec_next_pos(),
    {
        let next_pos = self.next_pos;
        let pos = match seek_start(&mut self.inner, next_pos) {
            Ok(pos) => pos,
            Err(e) => return Err(e),
        };
        if pos != next_pos {
            return Err(new_io_error(IoErrorKind::UnexpectedEof, "stream unexpectedly ended"));
        }
        let mut size: [u8; 2] = [0u8; 2];
        let got = {
            let sizes: &mut [u8] = &mut size;
            match read_exact_or_none(&mut self.inner, sizes) {
                Ok(got) => got,
                Err(e) => return Err(e),
            }
        };
        if !got {
            self.limit = 0;
            return Ok(None);
        }
        let size = le16(size);
        if self.chunk_index == u32::MAX || next_pos > u64::MAX - (size as u64 + 2) {
            return Err(new_io_error(IoErrorKind::InvalidData, "TAP: too many chunks"));
        }
        self.chunk_index = self.chunk_index + 1;
        self.checksum = 0;
        self.limit = size as u64;
        self.next_pos = next_pos + size as u64 + 2;
        Ok(Some(size))
    }

    /// Forwards the reader to the position of a next `skip` + 1 *TAP* chunks.
    /// Returns `Ok(None)` if the end of the file has been reached.
    /// On success returns `Ok(size)` in bytes of the next *TAP* chunk and limits the reader to
    /// that size.
    ///
    /// `skip_chunks(0)` acts the same as [TapChunkReader::next_chunk].
    pub fn skip_chunks(&mut self, skip: u32) -> (r: Result<Option<u16>, std::io::Error>)
        ensures
            final(self).spec_wf() || !old(self).spec_wf(),
            r matches Ok(Some(size)) ==> final(self).spec_chunk_no() == old(self).spec_chunk_no() + skip + 1
                && final(self).spec_limit() == size && final(self).spec_wf(),
            r matches Ok(None) ==> final(self).spec_limit() == 0 && final(self).spec_chunk_no()
                <= old(self).spec_chunk_no() + skip && final(self).spec_chunk_no() >= old(self).spec_chunk_no()
                && final(self).spec_wf(),
            r is Err ==> final(self).spec_chunk_no() <= old(self).spec_chunk_no() + skip
                && final(self).spec_chunk_no() >= old(self).spec_chunk_no(),
    {
        let ghost start = self.spec_chunk_no();
        let ghost wf = self.spec_wf();
        let mut i: u32 = 0;
        while i < skip
            invariant
                i <= skip,
                start == old(self).spec_chunk_no(),
                wf == old(self).spec_wf(),
                self.spec_chunk_no() == start + i,
                self.spec_wf() || !wf,
            decreases skip - i,
        {
            match self.next_chunk() {
                Ok(Some(_)) => {},
                Ok(None) => return Ok(None),
                Err(e) => return Err(e),
            }
            i = i + 1;
        }
        self.next_chunk()
    }

    /// Rewinds or forwards the tape to the nth chunk. Returns `Ok(true)` if the nth chunk exists.
    /// Otherwise returns `Ok(false)` and leaves the seek position at the end of the tape.
    pub fn rewind_nth_chunk(&mut self, chunk_no: u32) -> (r: Result<bool, std::io::Error>)
        ensures
            r matches Ok(true) ==> final(self).spec_chunk_no() == chunk_no,
            r matches Ok(false) ==> final(self).spec_limit() == 0 && final(self).spec_chunk_no() < chunk_no,
            chunk_no == 0 ==> (r matches Ok(true)),
    {
        let current_no = self.chunk_index;
        if chunk_no > current_no {
            match self.skip_chunks(chunk_no - current_no - 1) {
                Ok(res) => Ok(res.is_some()),
                Err(e) => Err(e),
            }
        } else {
            if current_no != 0 {
                self.rewind();
            }
            if chunk_no != 0 {
                if current_no == 0 {
                    self.rewind();
                }
                match self.skip_chunks(chunk_no - 1) {
                    Ok(res) => Ok(res.is_some()),
                    Err(e) => Err(e),
                }
            } else {
                Ok(true)
            }
        }
    }

    /// Forwards the tape to the next chunk. Returns `Ok(true)` if the forwarded to chunk exists.
    /// Otherwise returns `Ok(false)` and leaves the seek position at the end of the tape.
    pub fn forward_chunk(&mut self) -> (r: Result<bool, std::io::Error>)
        ensures
            r matches Ok(true) ==> final(self).spec_chunk_no() == old(self).spec_chunk_no() + 1,
            r matches Ok(false) ==> final(self).spec_limit() == 0 && final(self).spec_chunk_no()
                == old(self).spec_chunk_no(),
    {
        match self.next_chunk() {
            Ok(res) => Ok(res.is_some()),
            Err(e) => Err(e),
        }
    }

    /// Rewinds the tape to the beginning of the previous chunk. Returns `Ok(chunk_no)`.
    pub fn rewind_prev_chunk(&mut self) -> (r: Result<u32, std::io::Error>)
        ensures
            r matches Ok(no) ==> no == final(self).spec_chunk_no() && (old(self).spec_chunk_no() == 0 ==> no == 0)
                && (old(self).spec_chunk_no() > 0 ==> no < old(self).spec_chunk_no()),
            old(self).spec_chunk_no() <= 1 ==> (r matches Ok(0u32)),
            old(self).spec_chunk_no() == 1 ==> final(self).spec_limit() == 0 && final(self).spec_next_pos() == 0,
    {
        let no = self.chunk_index;
        if no != 0 {
            self.rewind();
            if no >= 2 {
                match self.skip_chunks(no - 2) {
                    Ok(_) => {},
                    Err(e) => return Err(e),
                }
            }
        }
        Ok(self.chunk_index)
    }

    /// Rewinds the tape to the beginning of the current chunk. Returns `Ok(chunk_no)`.
    pub fn rewind_chunk(&mut self) -> (r: Result<u32, std::io::Error>)
        ensures
            r matches Ok(no) ==> no == final(self).spec_chunk_no() && no <= old(self).spec_chunk_no(),
            old(self).spec_chunk_no() == 0 ==> (r matches Ok(0u32)),
    {
        let no = self.chunk_index;
        if no != 0 {
            self.rewind();
            match self.skip_chunks(no - 1) {
                Ok(_) => {},
                Err(e) => return Err(e),
            }
        }
        Ok(self.chunk_index)
    }
}

impl<R: std::io::Read> TapChunkReader<R> {
    /// Reads into `buf` at most as many bytes as the chunk has left, without changing the
    /// checksum; returns their number.
    fn read_raw(&mut self, buf: &mut [u8]) -> (r: Result<usize, std::io::Error>)
        ensures
            final(buf)@.len() == old(buf)@.len(),
            final(self).spec_sum() == old(self).spec_sum(),
            final(self).spec_wf() || !old(self).spec_wf(),
            r matches Ok(n) ==> n <= old(buf)@.len() && n <= old(self).spec_limit() && final(self).spec_limit()
                == old(self).spec_limit() - n && (old(self).spec_limit() > 0 && old(buf)@.len() > 0 ==> true),
            r is Err ==> final(self).spec_limit() == old(self).spec_limit(),
            final(self).spec_chunk_no() == old(self).spec_chunk_no(),
            final(self).spec_next_pos() == old(self).spec_next_pos(),
            old(self).spec_limit() == 0 ==> (r matches Ok(0usize)) && final(buf)@ == old(buf)@,
    {
        if self.limit == 0 {
            return Ok(0);
        }
        let max: usize = if (buf.len() as u64) < self.limit { buf.len() } else { self.limit as usize };
        let (head, _tail) = buf.split_at_mut(max);
        let n = match read_some(&mut self.inner, head) {
            Ok(n) => n,
            Err(e) => return Err(e),
        };
        self.limit = self.limit - n as u64;
        Ok(n)
    }

    /// Reads into `buf` at most as many bytes as the chunk has left, updating the checksum with
    /// the bytes read; returns their number.
    pub fn read_chunk(&mut self, buf: &mut [u8]) -> (r: Result<usize, std::io::Error>)
        ensures
            final(buf)@.len() == old(buf)@.len(),
            final(self).spec_wf() || !old(self).spec_wf(),
            r matches Ok(n) ==> n <= old(buf)@.len() && n <= old(self).spec_limit() && final(self).spec_limit()
                == old(self).spec_limit() - n && final(self).spec_sum() == old(self).spec_sum() ^ spec_checksum(
                final(buf)@.subrange(0, n as int),
            ),
            r is Err ==> final(self).spec_limit() == old(self).spec_limit() && final(self).spec_sum()
                == old(self).spec_sum(),
            final(self).spec_chunk_no() == old(self).spec_chunk_no(),
            final(self).spec_next_pos() == old(self).spec_next_pos(),
            old(self).spec_limit() == 0 ==> (r matches Ok(0usize)) && final(buf)@ == old(buf)@
                && final(self).spec_sum() == old(self).spec_sum(),
    {
        if self.limit == 0 {
            let c = self.checksum;
            proof {
                assert(c ^ 0u8 == c) by (bit_vector);
                assert(spec_checksum(buf@.subrange(0, 0)) == 0);
            }
            return Ok(0);
        }
        let n = match self.read_raw(buf) {
            Ok(n) => n,
            Err(e) => return Err(e),
        };
        let read: &[u8] = buf;
        let c = checksum(vstd::slice::slice_subrange(read, 0, n));
        self.checksum = self.checksum ^ c;
        Ok(n)
    }

    /// Fills the whole of `buf` from the chunk without changing the checksum.
    ///
    /// # Errors
    /// `UnexpectedEof` when the chunk or the stream ends first; the errors of the stream.
    fn read_exact_raw(&mut self, buf: &mut [u8]) -> (r: Result<(), std::io::Error>)
        ensures
            final(buf)@.len() == old(buf)@.len(),
            final(self).spec_wf() || !old(self).spec_wf(),
            r is Ok ==> final(self).spec_limit() == old(self).spec_limit() - old(buf)@.len(),
            final(self).spec_limit() <= old(self).spec_limit(),
            final(self).spec_chunk_no() == old(self).spec_chunk_no(),
            final(self).spec_next_pos() == old(self).spec_next_pos(),
            old(buf)@.len() == 0 ==> r is Ok,
            old(buf)@.len() > old(self).spec_limit() ==> r is Err,
    {
        let len = buf.len();
        let ghost limit0 = self.spec_limit();
        let ghost wf = self.spec_wf();
        let mut filled: usize = 0;
        while filled < len
            invariant
                filled <= len,
                len == old(buf)@.len(),
                limit0 == old(self).spec_limit(),
                wf == old(self).spec_wf(),
                buf@.len() == len,
                self.spec_limit() == limit0 - filled,
                self.spec_wf() || !wf,
                self.spec_chunk_no() == old(self).spec_chunk_no(),
                self.spec_next_pos() == old(self).spec_next_pos(),
            decreases len - filled,
        {
            let res = {
                let (_done, rest) = buf.split_at_mut(filled);
                self.read_raw(rest)
            };
            let n = match res {
                Ok(n) => n,
                Err(e) => return Err(e),
            };
            if n == 0 {
                return Err(new_io_error(IoErrorKind::UnexpectedEof, "failed to fill whole buffer"));
            }
            filled = filled + n;
        }
        Ok(())
    }
}

impl<R: std::io::Read> std::io::Read for TapChunkReader<R> {
    fn read(&mut self, buf: &mut [u8]) -> std::io::Result<usize> {
        self.read_chunk(buf)
    }
}

/// What the *TAP* chunk `b` holds: nothing; a header, when it is a whole header block with the
/// right checksum and a known block type; a data block, with its checksum (the XOR of all its
/// bytes, 0 when it is right); else a block of another kind.
pub open spec fn spec_tap_chunk_info(b: Seq<u8>) -> TapChunkInfo {
    if b.len() == 0 {
        TapChunkInfo::Empty
    } else if b.len() == 1 {
        TapChunkInfo::Unknown { size: 1, flag: b[0] }
    } else if b[0] == HEAD_BLOCK_FLAG && b.len() == HEADER_SIZE {
        if spec_checksum(b.subrange(1, 19)) != b[0] {
            TapChunkInfo::Unknown { size: 19, flag: b[0] }
        } else {
            match spec_header_of(b.subrange(1, 18)) {
                Some(h) => TapChunkInfo::Head(h),
                None => TapChunkInfo::Unknown { size: 19, flag: b[0] },
            }
        }
    } else if b[0] == DATA_BLOCK_FLAG {
        TapChunkInfo::Data { length: (b.len() - 2) as u16, checksum: spec_checksum(b) }
    } else {
        TapChunkInfo::Unknown { size: b.len() as u16, flag: b[0] }
    }
}

/// Returns what the whole *TAP* chunk `chunk` holds.
pub fn tap_chunk_info(chunk: &[u8]) -> (r: TapChunkInfo)
    requires
        chunk@.len() <= 0xFFFF,
    ensures
        r == spec_tap_chunk_info(chunk@),
{
    let len = chunk.len();
    if len == 0 {
        return TapChunkInfo::Empty;
    }
    let flag = chunk[0];
    if len == 1 {
        return TapChunkInfo::Unknown { size: 1, flag };
    }
    if flag == HEAD_BLOCK_FLAG && len == HEADER_SIZE {
        if checksum(vstd::slice::slice_subrange(chunk, 1, 19)) != flag {
            TapChunkInfo::Unknown { size: 19, flag }
        } else {
            match Header::from_bytes(vstd::slice::slice_subrange(chunk, 1, 18)) {
                Some(h) => TapChunkInfo::Head(h),
                None => TapChunkInfo::Unknown { size: 19, flag },
            }
        }
    } else if flag == DATA_BLOCK_FLAG {
        TapChunkInfo::Data { length: (len - 2) as u16, checksum: checksum(chunk) }
    } else {
        TapChunkInfo::Unknown { size: len as u16, flag }
    }
}

impl TapChunkInfo {
    /// Reads what the current chunk of `rd` holds from the bytes it has left, as read from
    /// the start of the chunk; the checksum of `rd` stays as it is.
    ///
    /// # Errors
    /// `UnexpectedEof` when the stream ends before the bytes the chunk needs; `InvalidData`
    /// when a data block ends before its length; the errors of the stream.
    pub fn try_from_reader<R: std::io::Read>(rd: &mut TapChunkReader<R>) -> (r: Result<TapChunkInfo, std::io::Error>)
        requires
            old(rd).spec_wf(),
        ensures
            final(rd).spec_wf(),
            final(rd).spec_chunk_no() == old(rd).spec_chunk_no(),
            old(rd).spec_limit() == 0 ==> (r matches Ok(TapChunkInfo::Empty)),
            r matches Ok(info) ==> exists|b: Seq<u8>| b.len() == old(rd).spec_limit() && info == spec_tap_chunk_info(b),
    {
        let limit = rd.chunk_limit();
        if limit == 0 {
            assert(spec_tap_chunk_info(Seq::<u8>::empty()) == TapChunkInfo::Empty);
            return Ok(TapChunkInfo::Empty);
        }
        let mut flag_buf: [u8; 1] = [0u8; 1];
        {
            let fb: &mut [u8] = &mut flag_buf;
            match rd.read_exact_raw(fb) {
                Ok(()) => {},
                Err(e) => return Err(e),
            }
        }
        let flag = flag_buf[0];
        if limit == 1 {
            assert(spec_tap_chunk_info(seq![flag]) == TapChunkInfo::Unknown { size: 1, flag });
            return Ok(TapChunkInfo::Unknown { size: 1, flag });
        }
        if flag == HEAD_BLOCK_FLAG && limit == 19 {
            let mut hb: [u8; 18] = [0u8; 18];
            {
                let hbs: &mut [u8] = &mut hb;
                match rd.read_exact_raw(hbs) {
                    Ok(()) => {},
                    Err(e) => return Err(e),
                }
            }
            let mut chunk: Vec<u8> = vec![flag];
            let mut i: usize = 0;
            while i < 18
                invariant
                    i <= 18,
                    hb@.len() == 18,
                    chunk@.len() == i + 1,
                decreases 18 - i,
            {
                chunk.push(hb[i]);
                i = i + 1;
            }
            return Ok(tap_chunk_info(chunk.as_slice()));
        }
        if flag == DATA_BLOCK_FLAG {
            let mut chunk: Vec<u8> = vec![flag];
            while rd.limit > 0
                invariant
                    rd.spec_wf(),
                    rd.spec_chunk_no() == old(rd).spec_chunk_no(),
                    limit == old(rd).spec_limit(),
                    limit > 1,
                    chunk@.len() + rd.spec_limit() == limit,
                    chunk@.len() >= 1,
                    chunk@[0] == flag,
                decreases rd.spec_limit(),
            {
                let mut one: [u8; 1] = [0u8; 1];
                let n = {
                    let ones: &mut [u8] = &mut one;
                    match rd.read_raw(ones) {
                        Ok(n) => n,
                        Err(e) => return Err(e),
                    }
                };
                if n == 0 {
                    break;
                }
                chunk.push(one[0]);
            }
            if rd.limit != 0 {
                return Err(new_io_error(IoErrorKind::InvalidData, "Not a proper TAP block: invalid length"));
            }
            return Ok(tap_chunk_info(chunk.as_slice()));
        }
        let ghost b = seq![flag] + Seq::new((limit - 1) as nat, |i: int| 0u8);
        assert(b[0] == flag && b.len() == limit);
        assert(spec_tap_chunk_info(b) == TapChunkInfo::Unknown { size: limit, flag });
        Ok(TapChunkInfo::Unknown { size: limit, flag })
    }
}

/// An iterator of what the chunks of a *TAP* file hold, read with a [TapChunkReader].
#[derive(Debug)]
pub struct TapReadInfoIter<R> {
    inner: TapChunkReader<R>,
}

impl<R: std::io::Read + std::io::Seek> TapReadInfoIter<R> {
    /// Creates the iterator from a chunk reader.
    pub fn new(inner: TapChunkReader<R>) -> (r: Self)
        ensures
            r.spec_reader() == inner,
    {
        TapReadInfoIter { inner }
    }

    /// The chunk reader.
    pub closed spec fn spec_reader(&self) -> TapChunkReader<R> {
        self.inner
    }

    /// Returns what the next chunk holds, or `None` at the end of the file.
    pub fn next(&mut self) -> (r: Option<Result<TapChunkInfo, std::io::Error>>)
        requires
            old(self).spec_reader().spec_wf(),
        ensures
            final(self).spec_reader().spec_wf(),
            r is None ==> final(self).spec_reader().spec_chunk_no() == old(self).spec_reader().spec_chunk_no(),
            r matches Some(Ok(_)) ==> final(self).spec_reader().spec_chunk_no() == old(self).spec_reader().spec_chunk_no() + 1,
    {
        match self.inner.next_chunk() {
            Ok(None) => None,
            Ok(Some(_)) => Some(TapChunkInfo::try_from_reader(&mut self.inner)),
            Err(e) => Some(Err(e)),
        }
    }

    /// Returns a reference to the chunk reader.
    pub fn as_ref(&self) -> (r: &TapChunkReader<R>)
        ensures
            *r == self.spec_reader(),
    {
        &self.inner
    }

    /// Returns a mutable reference to the chunk reader.
    pub fn as_mut(&mut self) -> (r: &mut TapChunkReader<R>)
        ensures
            *r == old(self).spec_reader(),
            final(self).spec_reader() == *final(r),
    {
        &mut self.inner
    }

    /// Returns the chunk reader.
    pub fn into_inner(self) -> (r: TapChunkReader<R>)
        ensures
            r == self.spec_reader(),
    {
        self.inner
    }
}

/// An iterator of T-state pulse intervals over the chunks of a [TapChunkReader].
/// See also: [ReadEncPulseIter].
#[derive(Debug)]
pub struct TapChunkPulseIter<R> {
    /// Determines if a next chunk should be processed after the previous one ends.
    ///
    /// * `false` to start iterating over pulses of the next chunk a [TapChunkPulseIter::next_chunk]
    ///   method should be called first. Until then the [TapChunkPulseIter::next] will return `None`.
    /// * `true` the next chunk will be processed automatically and a single pulse of the interval
    ///   of [PAUSE_PULSE_LENGTH] T-states is emitted before lead pulses of the next chunk.
    pub auto_next: bool,
    ep_iter: ReadEncPulseIter<TapChunkReader<R>>,
}

impl<R> TapChunkPulseIter<R> {
    /// Whether the next chunk is processed automatically.
    pub closed spec fn spec_auto_next(&self) -> bool {
        self.auto_next
    }

    /// The pulse iterator.
    pub closed spec fn spec_iter(&self) -> ReadEncPulseIter<TapChunkReader<R>> {
        self.ep_iter
    }

    /// Returns the wrapped iterator.
    pub fn into_inner(self) -> (r: ReadEncPulseIter<TapChunkReader<R>>)
        ensures
            r == self.spec_iter(),
    {
        self.ep_iter
    }

    /// Returns a reference to the inner iterator.
    pub fn get_ref(&self) -> (r: &ReadEncPulseIter<TapChunkReader<R>>)
        ensures
            *r == self.spec_iter(),
    {
        &self.ep_iter
    }

    /// Returns a mutable reference to the inner iterator.
    pub fn get_mut(&mut self) -> (r: &mut ReadEncPulseIter<TapChunkReader<R>>)
        ensures
            *r == old(self).spec_iter(),
            final(self).spec_iter() == *final(r),
            final(self).spec_auto_next() == old(self).spec_auto_next(),
    {
        &mut self.ep_iter
    }
}

impl<R: std::io::Read + std::io::Seek> TapChunkPulseIter<R> {
    /// Creates the iterator over the chunks of `rd`, with the pulses of the next chunk processed
    /// automatically.
    pub fn new(rd: TapChunkReader<R>) -> (r: Self)
        ensures
            r.spec_auto_next(),
            r.spec_iter().spec_wf(),
    {
        TapChunkPulseIter { auto_next: true, ep_iter: ReadEncPulseIter::new(rd) }
    }

    /// Creates the iterator from a pulse iterator over a chunk reader, with the pulses of the next
    /// chunk processed automatically.
    pub fn from_pulse_iter(ep_iter: ReadEncPulseIter<TapChunkReader<R>>) -> (r: Self)
        ensures
            r.spec_auto_next(),
            r.spec_iter() == ep_iter,
    {
        TapChunkPulseIter { auto_next: true, ep_iter }
    }

    /// Returns `true` if there are no more pulses to emit or there
    /// was an error while reading bytes.
    ///
    /// If [TapChunkPulseIter::auto_next] is `false` returns `true` after processing each chunk.
    /// Otherwise returns `true` after all chunks have been processed.
    pub fn is_done(&self) -> (r: bool)
        ensures
            r == (self.spec_iter().spec_state() is Done || self.spec_iter().spec_state() is Error),
    {
        self.ep_iter.is_done()
    }

    /// Returns the number of the current chunk.
    pub fn chunk_no(&self) -> (r: u32)
        ensures
            r == self.spec_iter().spec_reader().spec_chunk_no(),
    {
        self.ep_iter.get_ref().chunk_no()
    }

    /// Returns the number of bytes of the current chunk not read yet.
    pub fn chunk_limit(&self) -> (r: u16)
        requires
            self.spec_iter().spec_reader().spec_wf(),
        ensures
            r == self.spec_iter().spec_reader().spec_limit(),
    {
        self.ep_iter.get_ref().chunk_limit()
    }

    /// Rewinds the underlying [TapChunkReader] and resets the pulse iterator.
    pub fn rewind(&mut self)
        ensures
            final(self).spec_iter().spec_wf(),
            final(self).spec_auto_next() == old(self).spec_auto_next(),
    {
        self.ep_iter.get_mut().rewind();
        self.ep_iter.reset();
    }

    /// Invokes the underlying [TapChunkReader::next_chunk] and resets the pulse iterator.
    /// Returns the result from [TapChunkReader::next_chunk].
    pub fn next_chunk(&mut self) -> (r: Result<Option<u16>, std::io::Error>)
        ensures
            r is Ok ==> final(self).spec_iter().spec_wf(),
            final(self).spec_auto_next() == old(self).spec_auto_next(),
            final(self).spec_iter().spec_wf() || !old(self).spec_iter().spec_wf(),
    {
        let res = match self.ep_iter.get_mut().next_chunk() {
            Ok(res) => res,
            Err(e) => return Err(e),
        };
        self.ep_iter.reset();
        Ok(res)
    }

    /// Invokes the underlying [TapChunkReader::skip_chunks] and resets the pulse iterator.
    /// Returns the result from [TapChunkReader::skip_chunks].
    pub fn skip_chunks(&mut self, skip: u32) -> (r: Result<Option<u16>, std::io::Error>)
        ensures
            r is Ok ==> final(self).spec_iter().spec_wf(),
            final(self).spec_auto_next() == old(self).spec_auto_next(),
            final(self).spec_iter().spec_wf() || !old(self).spec_iter().spec_wf(),
    {
        let res = match self.ep_iter.get_mut().skip_chunks(skip) {
            Ok(res) => res,
            Err(e) => return Err(e),
        };
        self.ep_iter.reset();
        Ok(res)
    }

    /// Returns the next pulse: of the current chunk, then, when [TapChunkPulseIter::auto_next]
    /// is set, a pause and the pulses of the next chunk; `None` when there are none left or the
    /// reader failed.
    pub fn next(&mut self) -> (r: Option<u32>)
        requires
            old(self).spec_iter().spec_wf(),
        ensures
            final(self).spec_iter().spec_wf(),
            final(self).spec_auto_next() == old(self).spec_auto_next(),
            old(self).spec_iter().spec_state().spec_pulse(old(self).spec_iter().spec_flag()) matches Some(p)
                ==> r == Some(p),
            old(self).spec_iter().spec_state().spec_pulse(old(self).spec_iter().spec_flag()) is None
                && !old(self).spec_auto_next() ==> r is None,
            old(self).spec_iter().spec_state().spec_pulse(old(self).spec_iter().spec_flag()) is None
                ==> (r is None || r == Some(PAUSE_PULSE_LENGTH)),
    {
        match self.ep_iter.next() {
            Some(pulse) => Some(pulse),
            None => {
                if !self.auto_next {
                    return None;
                }
                if self.ep_iter.err().is_some() {
                    return None;
                }
                match self.ep_iter.get_mut().next_chunk() {
                    Ok(_) => {},
                    Err(_) => return None,
                }
                self.ep_iter.reset();
                if self.ep_iter.is_done() {
                    None
                } else {
                    Some(PAUSE_PULSE_LENGTH)
                }
            },
        }
    }
}

} // verus!
