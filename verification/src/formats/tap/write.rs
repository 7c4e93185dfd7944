//! Writing *TAP* chunks.
use vstd::prelude::*;

use crate::formats::sna::le_bytes;
use crate::formats::stream::{
    flush, new_io_error, seek_current, seek_start, write_all, write_some, IoErrorKind,
};
use crate::formats::tap::pulse::{PulseDecodeState, PulseDecodeWriter};
use crate::formats::tap::{checksum, spec_checksum, Header};

verus! {

/// A tool for writing *TAP* file chunks to byte streams.
///
/// Data can be written in one of 3 ways:
///
/// * Writing tap chunk data at once with [TapChunkWriter::write_header] or [TapChunkWriter::write_chunk].
/// * Writing tap chunk data with multiple writes via [TapChunkWriter::begin] and then [TapChunkWriteTran].
/// * Writing tap chunks from decoded *TAPE* pulses with [TapChunkWriter::write_pulses_as_tap_chunks].
pub struct TapChunkWriter<W> {
    chunk_head: u64,
    mpwr: PulseDecodeWriter<W>,
}

/// A [TapChunkWriter] transaction holder. Created by [TapChunkWriter::begin].
///
/// Write data with [TapChunkWriteTran::write], then call [TapChunkWriteTran::commit], or
/// [TapChunkWriteTran::rollback] to give the chunk up.
pub struct TapChunkWriteTran {
    /// Checksum byte updated with each write.
    pub checksum: u8,
    nchunks: usize,
    uncommitted: u16,
}

impl<W> TapChunkWriter<W> {
    /// The position of the length of the next chunk in the stream.
    pub closed spec fn spec_chunk_head(&self) -> u64 {
        self.chunk_head
    }

    /// The pulse decode writer.
    pub closed spec fn spec_writer(&self) -> PulseDecodeWriter<W> {
        self.mpwr
    }

    /// Returns the underlying pulse decode writer.
    pub fn into_inner(self) -> (r: PulseDecodeWriter<W>)
        ensures
            r == self.spec_writer(),
    {
        self.mpwr
    }

    /// Returns a mutable reference to the inner pulse decode writer.
    pub fn get_mut(&mut self) -> (r: &mut PulseDecodeWriter<W>)
        ensures
            *r == old(self).spec_writer(),
            final(self).spec_writer() == *final(r),
            final(self).spec_chunk_head() == old(self).spec_chunk_head(),
    {
        &mut self.mpwr
    }

    /// Returns a shared reference to the inner pulse decode writer.
    pub fn get_ref(&self) -> (r: &PulseDecodeWriter<W>)
        ensures
            *r == self.spec_writer(),
    {
        &self.mpwr
    }
}

impl<W: std::io::Write + std::io::Seek> TapChunkWriter<W> {
    /// The pulse decoder is in a state it can run from.
    pub open spec fn spec_wf(&self) -> bool {
        self.spec_writer().spec_wf()
    }

    /// Returns a new instance of `TapChunkWriter` with the given writer on success.
    ///
    /// The stream cursor should be positioned where the next chunk will be written.
    ///
    /// This method does not write any data, but moves the stream cursor to make room for
    /// the next block's length indicator.
    pub fn try_new(wr: W) -> (r: Result<Self, std::io::Error>)
        ensures
            r matches Ok(w) ==> w.spec_wf() && w.spec_writer().spec_state() == PulseDecodeState::Idle,
    {
        let mut mpwr = PulseDecodeWriter::new(wr);
        let chunk_start = match seek_current(mpwr.get_mut(), 2) {
            Ok(pos) => pos,
            Err(e) => return Err(e),
        };
        if chunk_start < 2 {
            return Err(new_io_error(IoErrorKind::InvalidData, "TAP: the stream position is out of range"));
        }
        Ok(TapChunkWriter { chunk_head: chunk_start - 2, mpwr })
    }

    /// Flushes the underlying writer, ensuring that all intermediately buffered
    /// contents reach their destination.
    pub fn flush(&mut self) -> (r: Result<(), std::io::Error>)
        ensures
            final(self).spec_writer().spec_state() == old(self).spec_writer().spec_state(),
    {
        flush(self.mpwr.get_mut())
    }

    /// Writes the 16-bit length of the chunk of `size` bytes at its head, and moves the head and
    /// the cursor past it.
    fn commit_chunk(&mut self, size: u32) -> (r: Result<(), std::io::Error>)
        ensures
            final(self).spec_writer().spec_state() == old(self).spec_writer().spec_state(),
            size > 0xFFFF ==> r is Err,
            r is Ok ==> final(self).spec_chunk_head() == old(self).spec_chunk_head() + 2 + size,
    {
        if size > 0xFFFF {
            return Err(new_io_error(IoErrorKind::InvalidData, "TAP chunk too large."));
        }
        let head = self.chunk_head;
        let wr = self.mpwr.get_mut();
        let chunk_head = match seek_start(wr, head) {
            Ok(pos) => pos,
            Err(e) => return Err(e),
        };
        if chunk_head != head || chunk_head > u64::MAX - 4 - size as u64 {
            return Err(new_io_error(IoErrorKind::InvalidData, "TAP: the stream position is out of range"));
        }
        match write_all(wr, le_bytes(size as u16).as_slice()) {
            Ok(()) => {},
            Err(e) => return Err(e),
        }
        let next_head = chunk_head + 2 + size as u64;
        match seek_start(wr, next_head + 2) {
            Ok(_) => {},
            Err(e) => return Err(e),
        }
        self.chunk_head = next_head;
        Ok(())
    }

    /// Forces pending pulse decode data transfer to [end][PulseDecodeWriter::end].
    ///
    /// Returns the number of *TAP* chunks written.
    pub fn end_pulse_chunk(&mut self) -> (r: Result<usize, std::io::Error>)
        requires
            old(self).spec_wf(),
        ensures
            final(self).spec_wf(),
            final(self).spec_writer().spec_state() == PulseDecodeState::Idle,
            r matches Ok(n) ==> n == (if old(self).spec_writer().spec_state().spec_end().1 is Some { 1usize } else { 0usize }),
            old(self).spec_writer().spec_state().spec_end().1 is None ==> (r matches Ok(0usize)),
    {
        match self.mpwr.end() {
            Ok(Some(size)) => {
                match self.commit_chunk(size) {
                    Ok(()) => Ok(1),
                    Err(e) => Err(e),
                }
            },
            Ok(None) => Ok(0),
            Err(e) => Err(e),
        }
    }

    /// Writes a provided header as a *TAP* chunk.
    ///
    /// Flushes internal [mic pulse writer][PulseDecodeWriter::end] before proceeding with writing the header.
    ///
    /// Returns the number of *TAP* chunks written.
    pub fn write_header(&mut self, header: &Header) -> (r: Result<usize, std::io::Error>)
        requires
            old(self).spec_wf(),
        ensures
            final(self).spec_wf(),
            r matches Ok(n) ==> n == 1 + (if old(self).spec_writer().spec_state().spec_end().1 is Some { 1usize } else { 0usize }),
    {
        self.write_chunk(header.to_tap_chunk().as_slice())
    }

    /// Writes provided data as a *TAP* chunk.
    ///
    /// Flushes internal [mic pulse writer][PulseDecodeWriter::end] before proceeding with writing the data.
    ///
    /// Returns the number of *TAP* chunks written.
    ///
    /// # Errors
    /// `InvalidData` when the data is longer than a chunk can be; the errors of the writer.
    pub fn write_chunk(&mut self, data: &[u8]) -> (r: Result<usize, std::io::Error>)
        requires
            old(self).spec_wf(),
        ensures
            final(self).spec_wf(),
            data@.len() > 0xFFFF ==> r is Err,
            r matches Ok(n) ==> n == 1 + (if old(self).spec_writer().spec_state().spec_end().1 is Some { 1usize } else { 0usize }),
    {
        if data.len() > 0xFFFF {
            return Err(new_io_error(IoErrorKind::InvalidData, "TAP chunk too large."));
        }
        let size = data.len() as u16;
        let nchunks = match self.end_pulse_chunk() {
            Ok(n) => n,
            Err(e) => return Err(e),
        };
        let head = self.chunk_head;
        let wr = self.mpwr.get_mut();
        match seek_start(wr, head) {
            Ok(_) => {},
            Err(e) => return Err(e),
        }
        match write_all(wr, le_bytes(size).as_slice()) {
            Ok(()) => {},
            Err(e) => return Err(e),
        }
        match write_all(wr, data) {
            Ok(()) => {},
            Err(e) => return Err(e),
        }
        let chunk_start = match seek_current(wr, 2) {
            Ok(pos) => pos,
            Err(e) => return Err(e),
        };
        if chunk_start < 2 {
            return Err(new_io_error(IoErrorKind::InvalidData, "TAP: the stream position is out of range"));
        }
        self.chunk_head = chunk_start - 2;
        Ok(nchunks + 1)
    }

    /// Creates a transaction allowing for multiple data writes to the same *TAP* chunk.
    ///
    /// Flushes internal [mic pulse writer][PulseDecodeWriter::end].
    ///
    /// Returns a transaction holder, which can be used to write data to the current chunk.
    pub fn begin(&mut self) -> (r: Result<TapChunkWriteTran, std::io::Error>)
        requires
            old(self).spec_wf(),
        ensures
            final(self).spec_wf(),
            r matches Ok(tran) ==> tran.spec_uncommitted() == 0 && tran.spec_sum() == 0 && tran.spec_nchunks() == (
                if old(self).spec_writer().spec_state().spec_end().1 is Some { 1usize } else { 0usize }),
            old(self).spec_writer().spec_state().spec_end().1 is None ==> r is Ok,
    {
        let nchunks = match self.end_pulse_chunk() {
            Ok(n) => n,
            Err(e) => return Err(e),
        };
        Ok(TapChunkWriteTran { checksum: 0, nchunks, uncommitted: 0 })
    }

    /// Interprets `pulses` as bytes and writes them to the underlying writer as *TAP* chunks.
    ///
    /// The pulses are decoded one by one (see [PulseDecodeWriter::write_decoded_pulses]); each
    /// block they end is written as a chunk. Decoding stops when a pulse breaks off a data
    /// transfer that received no byte. No pulses end the transfer in progress.
    ///
    /// Returns the number of *TAP* chunks written.
    ///
    /// # Errors
    /// `InvalidData` when a block is longer than a chunk can be; the errors of the writer.
    pub fn write_pulses_as_tap_chunks(&mut self, pulses: &[u32]) -> (r: Result<usize, std::io::Error>)
        requires
            old(self).spec_wf(),
        ensures
            final(self).spec_wf(),
            r matches Ok(n) ==> n <= pulses@.len() || n <= 1,
            pulses@.len() == 0 && old(self).spec_writer().spec_state().spec_end().1 is None ==> (r matches Ok(0usize)),
    {
        if pulses.len() == 0 {
            return match self.mpwr.end() {
                Ok(Some(size)) => match self.commit_chunk(size) {
                    Ok(()) => Ok(1),
                    Err(e) => Err(e),
                },
                Ok(None) => Ok(0),
                Err(e) => Err(e),
            };
        }
        let mut chunks: usize = 0;
        let mut pos: usize = 0;
        while pos < pulses.len()
            invariant
                pos <= pulses@.len(),
                chunks <= pos,
                self.spec_wf(),
            decreases pulses@.len() - pos,
        {
            if self.mpwr.data_size() == Some(u32::MAX) {
                return Err(new_io_error(IoErrorKind::InvalidData, "TAP chunk too large."));
            }
            proof {
                let st = self.spec_writer().spec_state();
                if st is Data {
                    assert(st.spec_potential() + 1 <= 16 * u32::MAX);
                }
            }
            let was_data = self.mpwr.state().is_data();
            let res = match self.mpwr.write_decoded_pulses(vstd::slice::slice_subrange(pulses, pos, pos + 1)) {
                Ok(res) => res,
                Err(e) => return Err(e),
            };
            pos = pos + 1;
            match res {
                Some(size) => {
                    match self.commit_chunk(size) {
                        Ok(()) => {},
                        Err(e) => return Err(e),
                    }
                    chunks = chunks + 1;
                },
                None => {
                    if was_data && self.mpwr.is_idle() {
                        return Ok(chunks);
                    }
                },
            }
        }
        Ok(chunks)
    }
}

impl TapChunkWriteTran {
    /// The checksum of the bytes written.
    pub closed spec fn spec_sum(&self) -> u8 {
        self.checksum
    }

    /// The number of chunks written when the transaction began.
    pub closed spec fn spec_nchunks(&self) -> usize {
        self.nchunks
    }

    /// The number of bytes written and not committed.
    pub closed spec fn spec_uncommitted(&self) -> u16 {
        self.uncommitted
    }

    /// Appends data to the current chunk of `writer`; returns the number of bytes written.
    ///
    /// Any number of writes should be followed by [TapChunkWriteTran::commit].
    ///
    /// # Errors
    /// `WriteZero` when the chunk would be longer than a chunk can be; the errors of the writer.
    pub fn write<W: std::io::Write + std::io::Seek>(&mut self, writer: &mut TapChunkWriter<W>, buf: &[u8]) -> (r: Result<usize, std::io::Error>)
        ensures
            old(self).spec_uncommitted() + buf@.len() > 0xFFFF ==> r is Err,
            r matches Ok(n) ==> n <= buf@.len() && final(self).spec_uncommitted() == old(self).spec_uncommitted() + n
                && final(self).spec_sum() == old(self).spec_sum() ^ spec_checksum(buf@.subrange(0, n as int)),
            r is Err ==> *final(self) == *old(self),
            final(writer).spec_writer().spec_state() == old(writer).spec_writer().spec_state(),
            final(writer).spec_chunk_head() == old(writer).spec_chunk_head(),
    {
        if buf.len() > 0xFFFF || self.uncommitted as usize + buf.len() > 0xFFFF {
            return Err(new_io_error(IoErrorKind::WriteZero, "chunk is larger than the maximum allowed size"));
        }
        let written = match write_some(writer.mpwr.get_mut(), buf) {
            Ok(n) => n,
            Err(e) => return Err(e),
        };
        self.checksum = self.checksum ^ checksum(vstd::slice::slice_subrange(buf, 0, written));
        self.uncommitted = self.uncommitted + written as u16;
        Ok(written)
    }

    /// Commits a *TAP* chunk.
    ///
    /// If `with_checksum` is `true` additionally writes a checksum byte of data written so far.
    ///
    /// Returns number of *TAP* chunks written including the call to `begin`.
    ///
    /// # Errors
    /// `WriteZero` when the checksum byte does not fit in the chunk; the errors of the writer.
    pub fn commit<W: std::io::Write + std::io::Seek>(self, writer: &mut TapChunkWriter<W>, with_checksum: bool) -> (r: Result<usize, std::io::Error>)
        ensures
            final(writer).spec_writer().spec_state() == old(writer).spec_writer().spec_state(),
            with_checksum && self.spec_uncommitted() == 0xFFFF ==> r is Err,
            r matches Ok(n) ==> n == self.spec_nchunks() + (if self.spec_uncommitted() > 0 || with_checksum { 1usize } else { 0usize }),
            !with_checksum && self.spec_uncommitted() == 0 ==> r == Ok::<usize, std::io::Error>(self.spec_nchunks()),
            ({
                let size = self.spec_uncommitted() + (if with_checksum { 1int } else { 0int });
                r is Ok ==> final(writer).spec_chunk_head() == old(writer).spec_chunk_head() + (if size > 0 {
                    2 + size
                } else {
                    0
                })
            }),
    {
        let mut nchunks = self.nchunks;
        let mut uncommitted = self.uncommitted;
        if with_checksum {
            if uncommitted == 0xFFFF {
                return Err(new_io_error(IoErrorKind::WriteZero, "chunk is larger than the maximum allowed size"));
            }
            uncommitted = uncommitted + 1;
            let sum: [u8; 1] = [self.checksum];
            match write_all(writer.mpwr.get_mut(), sum.as_slice()) {
                Ok(()) => {},
                Err(e) => return Err(e),
            }
        }
        if uncommitted != 0 {
            match writer.commit_chunk(uncommitted as u32) {
                Ok(()) => {},
                Err(e) => return Err(e),
            }
            if nchunks == usize::MAX {
                return Err(new_io_error(IoErrorKind::InvalidData, "TAP: too many chunks"));
            }
            nchunks = nchunks + 1;
        }
        Ok(nchunks)
    }

    /// Gives the chunk up: moves the cursor of `writer` back to where it was before the
    /// transaction started, when anything was written.
    pub fn rollback<W: std::io::Write + std::io::Seek>(self, writer: &mut TapChunkWriter<W>) -> (r: Result<(), std::io::Error>)
        ensures
            final(writer).spec_writer().spec_state() == old(writer).spec_writer().spec_state(),
            final(writer).spec_chunk_head() == old(writer).spec_chunk_head(),
            self.spec_uncommitted() == 0 ==> r is Ok,
    {
        if self.uncommitted != 0 {
            let head = writer.chunk_head;
            if head > u64::MAX - 2 {
                return Err(new_io_error(IoErrorKind::InvalidData, "TAP: the stream position is out of range"));
            }
            match seek_start(writer.mpwr.get_mut(), head + 2) {
                Ok(_) => {},
                Err(e) => return Err(e),
            }
        }
        Ok(())
    }
}

} // verus!
