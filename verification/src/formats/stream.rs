//! Byte-level access to the readers and writers of the standard library.
use vstd::prelude::*;

verus! {

/// Lets `std::io::Error` stand in verified signatures and fields; its contents stay opaque.
#[verifier::external_type_specification]
#[verifier::external_body]
pub struct ExIoError(std::io::Error);

/// The outcome of pulling a single byte out of a reader.
#[derive(Debug)]
pub enum ByteRead {
    /// A byte was read.
    Byte(u8),
    /// The reader has no more bytes.
    End,
    /// The reader reported an error.
    Failed(std::io::Error),
}

/// Pulls the next byte out of `rd` as `rd.bytes().next()` (`std::io::Read::bytes`) does.
///
/// Nothing is stated of the outcome: it is whatever the reader delivers.
#[verifier::external_body]
pub(crate) fn read_byte<R: std::io::Read>(rd: &mut R) -> (r: ByteRead) {
    match std::io::Read::bytes(rd).next() {
        Some(Ok(b)) => ByteRead::Byte(b),
        Some(Err(e)) => ByteRead::Failed(e),
        None => ByteRead::End,
    }
}

/// Writes the whole of `bytes` to `wr` with `std::io::Write::write_all`.
///
/// Nothing is stated of the outcome: it is whatever the writer reports.
#[verifier::external_body]
pub(crate) fn write_all<W: std::io::Write>(wr: &mut W, bytes: &[u8]) -> (r: Result<(), std::io::Error>) {
    wr.write_all(bytes)
}

/// Fills the whole of `buf` from `rd` with `std::io::Read::read_exact`.
///
/// Stated: the length of `buf` stays as it is. Not stated: the bytes that were read,
/// which are whatever the reader delivers.
#[verifier::external_body]
pub(crate) fn read_exact<R: std::io::Read>(rd: &mut R, buf: &mut [u8]) -> (r: Result<(), std::io::Error>)
    ensures
        final(buf)@.len() == old(buf)@.len(),
{
    rd.read_exact(buf)
}

/// Moves the cursor of `src` with `std::io::Seek::seek` to `SeekFrom::Start(pos)`; returns the
/// new position from the start.
///
/// Nothing is stated of the outcome: it is whatever the stream reports.
#[verifier::external_body]
pub(crate) fn seek_start<S: std::io::Seek>(src: &mut S, pos: u64) -> (r: Result<u64, std::io::Error>) {
    src.seek(std::io::SeekFrom::Start(pos))
}

/// Moves the cursor of `src` with `std::io::Seek::seek` by `offset` (`SeekFrom::Current`);
/// returns the new position from the start.
///
/// Nothing is stated of the outcome: it is whatever the stream reports.
#[verifier::external_body]
pub(crate) fn seek_current<S: std::io::Seek>(src: &mut S, offset: i64) -> (r: Result<u64, std::io::Error>) {
    src.seek(std::io::SeekFrom::Current(offset))
}

/// Moves the cursor of `src` to its end with `std::io::Seek::seek` (`SeekFrom::End(0)`);
/// returns the new position from the start: the length of the stream.
///
/// Nothing is stated of the outcome: it is whatever the stream reports.
#[verifier::external_body]
pub(crate) fn seek_end<S: std::io::Seek>(src: &mut S) -> (r: Result<u64, std::io::Error>) {
    src.seek(std::io::SeekFrom::End(0))
}

/// Flushes `wr` with `std::io::Write::flush`.
///
/// Nothing is stated of the outcome: it is whatever the writer reports.
#[verifier::external_body]
pub(crate) fn flush<W: std::io::Write>(wr: &mut W) -> (r: Result<(), std::io::Error>) {
    wr.flush()
}

/// An error of the kind `std::io::ErrorKind::Other` with the message of `e`, made with
/// `std::io::Error::new`.
#[verifier::external_body]
pub(crate) fn other_io_error<E: core::fmt::Display>(e: E) -> (r: std::io::Error) {
    std::io::Error::new(std::io::ErrorKind::Other, format!("{}", e))
}

/// The kinds of I/O errors that the formats report by themselves.
#[derive(Debug, Clone, Copy, PartialEq, Eq, Structural)]
pub enum IoErrorKind {
    /// `std::io::ErrorKind::InvalidData`
    InvalidData,
    /// `std::io::ErrorKind::UnexpectedEof`
    UnexpectedEof,
    /// `std::io::ErrorKind::InvalidInput`
    InvalidInput,
    /// `std::io::ErrorKind::WriteZero`
    WriteZero,
}

/// An error of the given kind with the message `msg`, made with `std::io::Error::new`.
#[verifier::external_body]
pub(crate) fn new_io_error(kind: IoErrorKind, msg: &str) -> (r: std::io::Error) {
    let kind = match kind {
        IoErrorKind::InvalidData => std::io::ErrorKind::InvalidData,
        IoErrorKind::UnexpectedEof => std::io::ErrorKind::UnexpectedEof,
        IoErrorKind::InvalidInput => std::io::ErrorKind::InvalidInput,
        IoErrorKind::WriteZero => std::io::ErrorKind::WriteZero,
    };
    std::io::Error::new(kind, msg)
}

/// Reads all the bytes left in `rd` with `std::io::Read::read_to_end`, appending them to `buf`.
///
/// Stated: what `buf` held stays at its start, and on success the number of bytes returned were
/// appended. Not stated: the bytes appended, which are whatever the reader delivers.
#[verifier::external_body]
pub(crate) fn read_to_end<R: std::io::Read>(rd: &mut R, buf: &mut Vec<u8>) -> (r: Result<usize, std::io::Error>)
    ensures
        final(buf)@.len() >= old(buf)@.len(),
        final(buf)@.subrange(0, old(buf)@.len() as int) == old(buf)@,
        (r matches Ok(n) ==> final(buf)@.len() == old(buf)@.len() + n),
{
    rd.read_to_end(buf)
}

/// The characters of the strings of `parts`, one after another.
pub open spec fn spec_concat(parts: Seq<&str>) -> Seq<char>
    decreases parts.len(),
{
    if parts.len() == 0 {
        Seq::empty()
    } else {
        spec_concat(parts.drop_last()) + parts.last()@
    }
}

/// Joins the strings of `parts` with `<[&str]>::concat`.
#[verifier::external_body]
pub(crate) fn concat_strs(parts: &[&str]) -> (r: String)
    ensures
        r@ == spec_concat(parts@),
{
    parts.concat()
}

/// Reads some bytes from `rd` into `buf` with `std::io::Read::read`, returning their number.
///
/// Stated: the length of `buf` stays, and the number is at most that length, as the
/// documentation of `std::io::Read::read` requires of every reader. Not stated: the bytes read.
#[verifier::external_body]
pub(crate) fn read_some<R: std::io::Read>(rd: &mut R, buf: &mut [u8]) -> (r: Result<usize, std::io::Error>)
    ensures
        final(buf)@.len() == old(buf)@.len(),
        (r matches Ok(n) ==> n <= old(buf)@.len()),
{
    rd.read(buf)
}

/// Writes some bytes of `buf` to `wr` with `std::io::Write::write`, returning their number.
///
/// Stated: the number is at most the length of `buf`, as the documentation of
/// `std::io::Write::write` requires of every writer. Not stated: what the writer did with them.
#[verifier::external_body]
pub(crate) fn write_some<W: std::io::Write>(wr: &mut W, buf: &[u8]) -> (r: Result<usize, std::io::Error>)
    ensures
        (r matches Ok(n) ==> n <= buf@.len()),
{
    wr.write(buf)
}

} // verus!
