//! Decompression of the memory blocks of **Z80** files.
use vstd::prelude::*;

verus! {

/// The bytes that the compressed `data` stands for: `ED ED n b` stands for `n` bytes `b`,
/// an `ED ED` with fewer than two bytes after it ends the data, and every other byte stands
/// for itself.
pub open spec fn spec_decompress(data: Seq<u8>) -> Seq<u8>
    decreases data.len(),
{
    if data.len() == 0 {
        Seq::empty()
    } else if data.len() >= 2 && data[0] == 0xED && data[1] == 0xED {
        if data.len() >= 4 {
            Seq::new(data[2] as nat, |i: int| data[3]) + spec_decompress(data.skip(4))
        } else {
            Seq::empty()
        }
    } else {
        seq![data[0]] + spec_decompress(data.skip(1))
    }
}

/// A pair of `ED` bytes begins at position `j` of `data`.
pub open spec fn spec_ed_pair_at(data: Seq<u8>, j: int) -> bool {
    0 <= j && j + 1 < data.len() && data[j] == 0xED && data[j + 1] == 0xED
}

/// Finds the first `needle` in `haystack` with `memchr::memchr`.
///
/// Stated, as the documentation of `memchr` gives it: the result is the index of the first
/// occurrence of `needle`, or `None` when there is none.
#[verifier::external_body]
fn find_byte(needle: u8, haystack: &[u8]) -> (r: Option<usize>)
    ensures
        match r {
            Some(i) => i < haystack@.len() && haystack@[i as int] == needle && forall|j: int|
                0 <= j < i ==> haystack@[j] != needle,
            None => forall|j: int| 0 <= j < haystack@.len() ==> haystack@[j] != needle,
        },
{
    memchr::memchr(needle, haystack)
}

/// Bytes that do not begin a pair of `ED` bytes stand for themselves.
pub(crate) proof fn lemma_decompress_literal(data: Seq<u8>, n: int)
    requires
        0 <= n <= data.len(),
        forall|j: int| 0 <= j < n ==> !spec_ed_pair_at(data, j),
    ensures
        spec_decompress(data) == data.subrange(0, n) + spec_decompress(data.skip(n)),
    decreases n,
{
    if n == 0 {
        assert(data.skip(0) =~= data);
        assert(data.subrange(0, 0) + spec_decompress(data) =~= spec_decompress(data));
    } else {
        assert(!spec_ed_pair_at(data, 0));
        let rest = data.skip(1);
        assert forall|j: int| 0 <= j < n - 1 implies !spec_ed_pair_at(rest, j) by {
            assert(!spec_ed_pair_at(data, j + 1));
        }
        lemma_decompress_literal(rest, n - 1);
        assert(rest.skip(n - 1) =~= data.skip(n));
        assert(seq![data[0]] + (rest.subrange(0, n - 1) + spec_decompress(data.skip(n))) =~= data.subrange(
            0,
            n,
        ) + spec_decompress(data.skip(n)));
    }
}

/// What one step of decompression gives.
pub enum Decompressed<'a> {
    /// Bytes that stand for themselves.
    Data(&'a [u8]),
    /// The number of repetitions of the fill byte.
    Repeat(usize),
}

/// Reads the decompressed bytes of a compressed memory block of a **Z80** file.
pub struct MemDecompress<'a> {
    fill: u8,
    repeat: usize,
    index: usize,
    cursor: usize,
    data: &'a [u8],
}

impl<'a> MemDecompress<'a> {
    /// The positions stay within the compressed data.
    pub closed spec fn spec_wf(&self) -> bool {
        self.cursor + self.index <= self.data@.len() <= usize::MAX
    }

    /// The decompressed bytes not read yet.
    pub closed spec fn spec_pending(&self) -> Seq<u8> {
        Seq::new(self.repeat as nat, |i: int| self.fill) + self.data@.subrange(
            self.cursor as int,
            self.cursor + self.index,
        ) + spec_decompress(self.data@.skip(self.cursor + self.index))
    }

    /// The compressed bytes not looked at yet.
    pub closed spec fn spec_input_left(&self) -> nat {
        (self.data@.len() - self.cursor) as nat
    }

    /// Creates a reader of the decompressed bytes of `data`.
    pub fn new(data: &'a [u8]) -> (r: Self)
        ensures
            r.spec_wf(),
            r.spec_pending() == spec_decompress(data@),
    {
        let _len = data.len();
        let r = MemDecompress { fill: 0, repeat: 0, index: 0, cursor: 0, data };
        proof {
            assert(data@.skip(0) =~= data@);
            assert(r.spec_pending() =~= spec_decompress(data@));
        }
        r
    }

    fn decompress(&mut self, maxlen: usize) -> (r: Option<Decompressed<'a>>)
        requires
            old(self).spec_wf(),
        ensures
            final(self).spec_wf(),
            match r {
                None => (maxlen == 0 || old(self).spec_pending().len() == 0) && final(self).spec_pending() == old(self).spec_pending(),
                Some(Decompressed::Data(s)) => 1 <= s@.len() <= maxlen && s@.len() <= old(self).spec_pending().len() && s@ == old(self).spec_pending().take(s@.len() as int) && final(self).spec_pending() == old(self).spec_pending().skip(s@.len() as int),
                Some(Decompressed::Repeat(n)) => n <= maxlen && n <= old(self).spec_pending().len() && Seq::new(n as nat, |i: int| final(self).fill)
                    == old(self).spec_pending().take(n as int) && final(self).spec_pending() == old(self).spec_pending().skip(n as int) && (n > 0 || final(self).spec_input_left() < old(self).spec_input_left()),
            },
    {
        if maxlen == 0 {
            return None;
        }
        let ghost pending = self.spec_pending();
        let repeat = if self.repeat < maxlen {
            self.repeat
        } else {
            maxlen
        };
        if repeat != 0 {
            self.repeat = self.repeat - repeat;
            proof {
                assert(Seq::new(repeat as nat, |i: int| self.fill) =~= pending.take(repeat as int));
                assert(self.spec_pending() =~= pending.skip(repeat as int));
            }
            return Some(Decompressed::Repeat(repeat));
        }
        if self.index == 0 {
            match self.next_token(maxlen) {
                Some(n) => {
                    return Some(Decompressed::Repeat(n));
                },
                None => {
                    if self.index == 0 {
                        return None;
                    }
                },
            }
        }
        Some(Decompressed::Data(self.take_literal(maxlen)))
    }

    /// Looks at the compressed bytes after the literal bytes: takes a repetition, or finds the
    /// next literal bytes, or finds the end.
    fn next_token(&mut self, maxlen: usize) -> (r: Option<usize>)
        requires
            old(self).spec_wf(),
            old(self).repeat == 0,
            old(self).index == 0,
            maxlen > 0,
        ensures
            final(self).spec_wf(),
            match r {
                Some(n) => n <= maxlen && n <= old(self).spec_pending().len() && Seq::new(n as nat, |i: int| final(self).fill)
                    == old(self).spec_pending().take(n as int) && final(self).spec_pending() == old(self).spec_pending().skip(n as int) && (n > 0 || final(self).spec_input_left() < old(self).spec_input_left()),
                None => final(self).spec_pending() == old(self).spec_pending() && final(self).repeat == 0 && (final(self).index > 0 || old(self).spec_pending().len() == 0),
            },
    {
        let ghost pending = self.spec_pending();
        let cursor = self.cursor;
        let total = self.data.len();
        let data: &'a [u8] = self.data;
        let rest = slice_from(data, cursor);
        proof {
            assert(Seq::new(0nat, |i: int| self.fill) + self.data@.subrange(
                self.cursor as int,
                self.cursor + self.index,
            ) =~= Seq::<u8>::empty());
            assert(rest@ =~= self.data@.skip(self.cursor as int));
            assert(pending =~= spec_decompress(rest@));
        }
        assert(rest@.len() == total - cursor);
        if rest.len() == 0 {
            return None;
        }
        if rest.len() >= 2 && rest[0] == 0xED && rest[1] == 0xED {
            if rest.len() >= 4 {
                self.cursor = cursor + 4;
                self.fill = rest[3];
                let mut repeat: usize = rest[2] as usize;
                if repeat > maxlen {
                    self.repeat = repeat - maxlen;
                    repeat = maxlen;
                }
                proof {
                    assert(rest@.skip(4) =~= self.data@.skip(self.cursor as int));
                    assert(Seq::new(repeat as nat, |i: int| self.fill) =~= pending.take(repeat as int));
                    assert(self.spec_pending() =~= pending.skip(repeat as int));
                }
                return Some(repeat);
            } else {
                self.cursor = total;
                proof {
                    assert(self.spec_pending() =~= Seq::<u8>::empty());
                }
                return None;
            }
        }
        let index = literal_len(rest);
        self.index = index;
        proof {
            lemma_decompress_literal(rest@, index as int);
            assert(rest@.subrange(0, index as int) =~= self.data@.subrange(
                self.cursor as int,
                self.cursor + self.index,
            ));
            assert(rest@.skip(index as int) =~= self.data@.skip(self.cursor + self.index));
            assert(self.spec_pending() =~= pending);
        }
        None
    }

    /// Takes as many of the pending literal bytes as `maxlen` allows.
    fn take_literal(&mut self, maxlen: usize) -> (r: &'a [u8])
        requires
            old(self).spec_wf(),
            old(self).repeat == 0,
            old(self).index > 0,
            maxlen > 0,
        ensures
            final(self).spec_wf(),
            1 <= r@.len() <= maxlen,
            r@.len() <= old(self).spec_pending().len(),
            r@ == old(self).spec_pending().take(r@.len() as int),
            final(self).spec_pending() == old(self).spec_pending().skip(r@.len() as int),
    {
        let ghost pending = self.spec_pending();
        let cursor = self.cursor;
        let data: &'a [u8] = self.data;
        let mut index = self.index;
        if index > maxlen {
            index = maxlen;
        }
        self.index = self.index - index;
        self.cursor = self.cursor + index;
        let out = slice_range(data, cursor, cursor + index);
        proof {
            assert(Seq::new(0nat, |i: int| self.fill) + self.data@.subrange(
                cursor as int,
                cursor + old(self).index,
            ) =~= self.data@.subrange(cursor as int, cursor + old(self).index));
            assert(out@ =~= pending.take(index as int));
            assert(self.spec_pending() =~= pending.skip(index as int));
        }
        out
    }

    /// Reads the next decompressed bytes into `buf`: as many as fit, or as are left.
    ///
    /// Returns the number of bytes read; the bytes of `buf` past them stay as they were.
    pub fn read(&mut self, buf: &mut [u8]) -> (r: Result<usize, std::io::Error>)
        requires
            old(self).spec_wf(),
        ensures
            final(self).spec_wf(),
            (r matches Ok(n) && n as int == (if old(buf)@.len() < old(self).spec_pending().len() {
                old(buf)@.len() as int
            } else {
                old(self).spec_pending().len() as int
            }) && final(buf)@.len() == old(buf)@.len() && final(buf)@.subrange(0, n as int)
                == old(self).spec_pending().take(n as int) && final(buf)@.subrange(
                n as int,
                old(buf)@.len() as int,
            ) == old(buf)@.subrange(n as int, old(buf)@.len() as int) && final(self).spec_pending()
                == old(self).spec_pending().skip(n as int)),
    {
        let buflen = buf.len();
        let mut filled: usize = 0;
        let ghost pending = self.spec_pending();
        loop
            invariant
                self.spec_wf(),
                filled <= buflen,
                buflen == buf@.len(),
                buf@.len() == old(buf)@.len(),
                filled <= pending.len(),
                self.spec_pending() == pending.skip(filled as int),
                forall|j: int| 0 <= j < filled ==> buf@[j] == pending[j],
                forall|j: int| filled <= j < buflen ==> buf@[j] == old(buf)@[j],
                pending == old(self).spec_pending(),
            ensures
                self.spec_wf(),
                buf@.len() == old(buf)@.len(),
                filled <= pending.len(),
                filled as int == (if buflen < pending.len() {
                    buflen as int
                } else {
                    pending.len() as int
                }),
                self.spec_pending() == pending.skip(filled as int),
                forall|j: int| 0 <= j < filled ==> buf@[j] == pending[j],
                forall|j: int| filled <= j < buflen ==> buf@[j] == old(buf)@[j],
            decreases buflen - filled, self.spec_input_left(),
        {
            let ghost before = self.spec_pending();
            match self.decompress(buflen - filled) {
                None => {
                    break;
                },
                Some(Decompressed::Data(slice)) => {
                    let len = slice.len();
                    let mut k: usize = 0;
                    while k < len
                        invariant
                            k <= len,
                            len == slice@.len(),
                            filled + len <= buflen,
                            buf@.len() == buflen,
                            forall|j: int| 0 <= j < filled ==> buf@[j] == pending[j],
                            forall|j: int| filled <= j < filled + k ==> buf@[j] == slice@[j - filled],
                            forall|j: int| filled + k <= j < buflen ==> buf@[j] == old(buf)@[j],
                        decreases len - k,
                    {
                        buf[filled + k] = slice[k];
                        k = k + 1;
                    }
                    proof {
                        assert forall|j: int| filled <= j < filled + len implies buf@[j] == pending[j] by {
                            assert(slice@[j - filled] == before.take(len as int)[j - filled]);
                            assert(before[j - filled] == pending.skip(filled as int)[j - filled]);
                        }
                        assert(before.skip(len as int) =~= pending.skip((filled + len) as int));
                    }
                    filled = filled + len;
                },
                Some(Decompressed::Repeat(repeat)) => {
                    let fill = self.fill;
                    let mut k: usize = 0;
                    while k < repeat
                        invariant
                            k <= repeat,
                            filled + repeat <= buflen,
                            buf@.len() == buflen,
                            forall|j: int| 0 <= j < filled ==> buf@[j] == pending[j],
                            forall|j: int| filled <= j < filled + k ==> buf@[j] == fill,
                            forall|j: int| filled + k <= j < buflen ==> buf@[j] == old(buf)@[j],
                        decreases repeat - k,
                    {
                        buf[filled + k] = fill;
                        k = k + 1;
                    }
                    proof {
                        assert forall|j: int| filled <= j < filled + repeat implies buf@[j] == pending[j] by {
                            assert(Seq::new(repeat as nat, |i: int| fill)[j - filled] == before.take(
                                repeat as int,
                            )[j - filled]);
                            assert(before[j - filled] == pending.skip(filled as int)[j - filled]);
                        }
                        assert(before.skip(repeat as int) =~= pending.skip((filled + repeat) as int));
                    }
                    filled = filled + repeat;
                },
            }
        }
        proof {
            assert(buf@.subrange(0, filled as int) =~= pending.take(filled as int));
            assert(buf@.subrange(filled as int, buflen as int) =~= old(buf)@.subrange(
                filled as int,
                buflen as int,
            ));
        }
        Ok(filled)
    }
}

/// The number of bytes at the start of `rest` before the first pair of `ED` bytes, or all of
/// them when there is no such pair.
fn literal_len(rest: &[u8]) -> (r: usize)
    requires
        rest@.len() > 0,
        !spec_ed_pair_at(rest@, 0),
    ensures
        0 < r <= rest@.len(),
        forall|j: int| 0 <= j < r ==> !spec_ed_pair_at(rest@, j),
        r == rest@.len() || spec_ed_pair_at(rest@, r as int),
{
    let rest_len = rest.len();
    let mut index: usize = 0;
    loop
        invariant
            index <= rest_len,
            rest_len == rest@.len(),
            rest@.len() > 0,
            !spec_ed_pair_at(rest@, 0),
            forall|j: int| 0 <= j < index ==> !spec_ed_pair_at(rest@, j),
        ensures
            0 < index <= rest@.len(),
            forall|j: int| 0 <= j < index ==> !spec_ed_pair_at(rest@, j),
            index == rest@.len() || spec_ed_pair_at(rest@, index as int),
        decreases rest_len - index,
    {
        let tail = slice_from(rest, index);
        assert(tail@.len() == rest@.len() - index);
        match find_byte(0xED, tail) {
            Some(found) => {
                let at = index + found;
                proof {
                    assert forall|j: int| 0 <= j < at implies !spec_ed_pair_at(rest@, j) by {
                        if j >= index {
                            assert(tail@[j - index] == rest@[j]);
                        }
                    }
                }
                if at + 1 < rest_len && rest[at + 1] == 0xED {
                    index = at;
                    break;
                } else {
                    proof {
                        assert(!spec_ed_pair_at(rest@, at as int));
                    }
                    index = at + 1;
                    if index == rest_len {
                        break;
                    }
                }
            },
            None => {
                proof {
                    assert forall|j: int| 0 <= j < rest@.len() implies !spec_ed_pair_at(rest@, j) by {
                        if j >= index {
                            assert(tail@[j - index] == rest@[j]);
                        }
                    }
                }
                index = rest_len;
                break;
            },
        }
    }
    index
}

/// The bytes of `data` from `start` on.
fn slice_from(data: &[u8], start: usize) -> (r: &[u8])
    requires
        start <= data@.len(),
    ensures
        r@ == data@.skip(start as int),
{
    slice_range(data, start, data.len())
}

/// The bytes of `data` from `start` up to `end`.
fn slice_range(data: &[u8], start: usize, end: usize) -> (r: &[u8])
    requires
        start <= end <= data@.len(),
    ensures
        r@ == data@.subrange(start as int, end as int),
{
    let r = &data[start..end];
    assert(r@ =~= data@.subrange(start as int, end as int));
    r
}

/// Returns the decompressed bytes of a compressed memory block of a **Z80** file.
pub fn decompress_all(data: &[u8]) -> (r: Vec<u8>)
    ensures
        r@ == spec_decompress(data@),
{
    let mut dec = MemDecompress::new(data);
    let mut out: Vec<u8> = Vec::new();
    let mut buf: Vec<u8> = vec![0u8; 0x4000];
    loop
        invariant
            dec.spec_wf(),
            buf@.len() == 0x4000,
            out@ + dec.spec_pending() == spec_decompress(data@),
        decreases dec.spec_pending().len(),
    {
        let ghost pending = dec.spec_pending();
        let n = match dec.read(buf.as_mut_slice()) {
            Ok(n) => n,
            Err(_) => 0,
        };
        if n == 0 {
            proof {
                assert(pending.len() == 0);
                assert(out@ + pending =~= out@);
            }
            return out;
        }
        let ghost before = out@;
        let mut i: usize = 0;
        while i < n
            invariant
                n <= buf@.len(),
                i <= n,
                out@ == before + buf@.subrange(0, i as int),
            decreases n - i,
        {
            out.push(buf[i]);
            proof {
                assert(buf@.subrange(0, i + 1) =~= buf@.subrange(0, i as int).push(buf@[i as int]));
            }
            i = i + 1;
        }
        proof {
            assert(buf@.subrange(0, n as int) == pending.take(n as int));
            assert(pending.take(n as int) + pending.skip(n as int) =~= pending);
            assert(out@ + dec.spec_pending() =~= before + pending);
        }
    }
}

} // verus!
