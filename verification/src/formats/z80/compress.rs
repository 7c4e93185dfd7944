//! Compression of the memory blocks of **Z80** files.
use vstd::prelude::*;

use crate::formats::stream::write_all;

verus! {

/// The length of the run of bytes equal to `data[i]` that starts at `i`, counted from `k`
/// on and at most 255.
pub open spec fn spec_run_from(data: Seq<u8>, i: int, k: int) -> int
    decreases 255 - k,
{
    if k < 255 && i + k < data.len() && data[i + k] == data[i] {
        spec_run_from(data, i, k + 1)
    } else {
        k
    }
}

/// The length of the run of bytes equal to `data[i]` that starts at `i`, at most 255.
pub open spec fn spec_run_len(data: Seq<u8>, i: int) -> int {
    spec_run_from(data, i, 1)
}

/// A run of `count` bytes `b` is written as a block `ED ED count b` when it is longer than
/// 4 bytes, or when the bytes are `ED` and there are more than one of them.
pub open spec fn spec_is_block(b: u8, count: int) -> bool {
    count > 4 || (b == 0xED && count > 1)
}

/// What a run of `count` bytes `b` is written as.
pub open spec fn spec_run_out(b: u8, count: int) -> Seq<u8> {
    if spec_is_block(b, count) {
        seq![0xEDu8, 0xEDu8, count as u8, b]
    } else {
        Seq::new(count as nat, |j: int| b)
    }
}

/// A lone `ED` byte begins at `i`: one that the next byte follows and that is not part of
/// a run of `ED` bytes.
pub open spec fn spec_lone_ed_at(data: Seq<u8>, i: int) -> bool {
    data[i] == 0xED && spec_run_len(data, i) == 1 && i + 1 < data.len()
}

/// The compressed form of the bytes of `data` from `i` on: run after run, each at most 255
/// bytes long, except that the byte after a lone `ED` byte is written as it is and starts no
/// run.
pub open spec fn spec_compress_from(data: Seq<u8>, i: int) -> Seq<u8>
    decreases data.len() - i,
{
    if i < 0 || i >= data.len() {
        Seq::empty()
    } else if spec_lone_ed_at(data, i) {
        seq![0xEDu8, data[i + 1]] + spec_compress_from(data, i + 2)
    } else {
        let count = spec_run_len(data, i);
        if count >= 1 && i + count <= data.len() {
            spec_run_out(data[i], count) + spec_compress_from(data, i + count)
        } else {
            Seq::empty()
        }
    }
}

/// The compressed form of `data`.
pub open spec fn spec_compress(data: Seq<u8>) -> Seq<u8> {
    spec_compress_from(data, 0)
}

/// The compressed form of `length` bytes `byte`.
pub open spec fn spec_compress_repeat(byte: u8, length: int) -> Seq<u8>
    decreases length,
{
    let min_len = if byte == 0xED { 2int } else { 5int };
    if length >= min_len {
        let count = if length < 255 { length } else { 255 };
        seq![0xEDu8, 0xEDu8, count as u8, byte] + spec_compress_repeat(byte, length - count)
    } else if length > 0 {
        Seq::new(length as nat, |j: int| byte)
    } else {
        Seq::empty()
    }
}

/// The run from `i` has reached `count` bytes and can not grow any further.
proof fn lemma_run_len(data: Seq<u8>, i: int, k: int, count: int)
    requires
        0 <= i < data.len(),
        1 <= k <= count <= 255,
        i + count <= data.len(),
        forall|j: int| i <= j < i + count ==> data[j] == data[i],
        count == 255 || i + count == data.len() || data[i + count] != data[i],
    ensures
        spec_run_from(data, i, k) == count,
    decreases count - k,
{
    if k < count {
        assert(data[i + k] == data[i]);
        lemma_run_len(data, i, k + 1, count);
    }
}

/// The run from `i` is at least one byte long and stays within the data, every byte of it
/// being `data[i]`; the run that follows begins with another byte, unless the run is 255
/// bytes long.
pub(crate) proof fn lemma_run_facts(data: Seq<u8>, i: int, k: int)
    requires
        0 <= i < data.len(),
        1 <= k <= 255,
        i + k <= data.len(),
        forall|j: int| i <= j < i + k ==> data[j] == data[i],
    ensures
        k <= spec_run_from(data, i, k) <= 255,
        i + spec_run_from(data, i, k) <= data.len(),
        forall|j: int| i <= j < i + spec_run_from(data, i, k) ==> data[j] == data[i],
        spec_run_from(data, i, k) == 255 || i + spec_run_from(data, i, k) == data.len() || data[i
            + spec_run_from(data, i, k)] != data[i],
    decreases 255 - k,
{
    if k < 255 && i + k < data.len() && data[i + k] == data[i] {
        lemma_run_facts(data, i, k + 1);
    }
}

/// Returns the compressed form of `data`, as the **Z80** format compresses memory blocks:
/// a run of more than 4 equal bytes, or of more than one `ED` byte, at most 255 bytes long,
/// becomes the block `ED ED count byte`; the byte after a lone `ED` byte is never part of a
/// block; every other byte stays as it is.
pub fn compress(data: &[u8]) -> (r: Vec<u8>)
    requires
        data@.len() < usize::MAX,
    ensures
        r@ == spec_compress(data@),
{
    let mut out: Vec<u8> = Vec::new();
    let len = data.len();
    let mut i: usize = 0;
    while i < len
        invariant
            len == data@.len() < usize::MAX,
            i <= len,
            spec_compress(data@) == out@ + spec_compress_from(data@, i as int),
        decreases len - i,
    {
        let b = data[i];
        let mut count: usize = 1;
        while count < 255 && i + count < len && data[i + count] == b
            invariant
                len == data@.len() < usize::MAX,
                i < len,
                b == data@[i as int],
                1 <= count <= 255,
                i + count <= len,
                forall|j: int| i <= j < i + count ==> data@[j] == b,
            decreases 255 - count,
        {
            count = count + 1;
        }
        proof {
            lemma_run_len(data@, i as int, 1, count as int);
        }
        let ghost before = out@;
        let ghost start: int = i as int;
        if b == 0xED && count == 1 && i + 1 < len {
            out.push(0xED);
            out.push(data[i + 1]);
            proof {
                assert(out@ =~= before + seq![0xEDu8, data@[i + 1]]);
            }
            i = i + 2;
        } else if count > 4 || (b == 0xED && count > 1) {
            out.push(0xED);
            out.push(0xED);
            out.push(count as u8);
            out.push(b);
            proof {
                assert(out@ =~= before + spec_run_out(b, count as int));
            }
            i = i + count;
        } else {
            let mut k: usize = 0;
            while k < count
                invariant
                    k <= count,
                    out@ == before + Seq::new(k as nat, |j: int| b),
                decreases count - k,
            {
                out.push(b);
                k = k + 1;
                proof {
                    assert(out@ =~= before + Seq::new(k as nat, |j: int| b));
                }
            }
            proof {
                assert(out@ =~= before + spec_run_out(b, count as int));
            }
            i = i + count;
        }
        proof {
            assert(spec_compress_from(data@, start) == out@.skip(before.len() as int)
                + spec_compress_from(data@, i as int));
            assert(before + (out@.skip(before.len() as int) + spec_compress_from(data@, i as int))
                =~= out@ + spec_compress_from(data@, i as int));
        }
    }
    proof {
        assert(spec_compress_from(data@, i as int) =~= Seq::<u8>::empty());
        assert(out@ + Seq::<u8>::empty() =~= out@);
    }
    out
}

/// Writes the compressed form of `data` (see [compress]) to `wr`.
pub fn compress_write_all<W: std::io::Write>(data: &[u8], mut wr: W) -> (r: Result<(), std::io::Error>)
    requires
        data@.len() < usize::MAX,
    ensures
        spec_compress(data@).len() == 0 ==> r is Ok,
{
    let out = compress(data);
    if out.len() == 0 {
        return Ok(());
    }
    write_all(&mut wr, out.as_slice())
}

/// Returns the compressed form of `length` bytes `byte`: blocks of at most 255 bytes, then
/// the bytes too few to make a block, as they are.
pub fn compress_repeat(byte: u8, length: usize) -> (r: Vec<u8>)
    ensures
        r@ == spec_compress_repeat(byte, length as int),
{
    let mut out: Vec<u8> = Vec::new();
    let min_len: usize = if byte == 0xED {
        2
    } else {
        5
    };
    let ghost total = length;
    let mut length = length;
    proof {
        assert(out@ + spec_compress_repeat(byte, length as int) =~= spec_compress_repeat(byte, total as int));
    }
    while length >= min_len
        invariant
            min_len == (if byte == 0xED { 2usize } else { 5usize }),
            out@ + spec_compress_repeat(byte, length as int) == spec_compress_repeat(
                byte,
                total as int,
            ),
        decreases length,
    {
        let count: usize = if length < 255 {
            length
        } else {
            255
        };
        let ghost before = out@;
        out.push(0xED);
        out.push(0xED);
        out.push(count as u8);
        out.push(byte);
        proof {
            assert(before + spec_compress_repeat(byte, length as int) =~= out@ + spec_compress_repeat(
                byte,
                (length - count) as int,
            ));
        }
        length = length - count;
    }
    let ghost before = out@;
    let mut k: usize = 0;
    while k < length
        invariant
            k <= length,
            out@ == before + Seq::new(k as nat, |j: int| byte),
        decreases length - k,
    {
        out.push(byte);
        k = k + 1;
        proof {
            assert(out@ =~= before + Seq::new(k as nat, |j: int| byte));
        }
    }
    proof {
        if length == 0 {
            assert(out@ =~= before + spec_compress_repeat(byte, length as int));
        } else {
            assert(out@ =~= before + spec_compress_repeat(byte, length as int));
        }
    }
    out
}

/// Writes the compressed form of `length` bytes `byte` (see [compress_repeat]) to `wr`.
pub fn compress_repeat_write_all<W: std::io::Write>(byte: u8, length: usize, mut wr: W) -> (r: Result<(), std::io::Error>)
    ensures
        length == 0 ==> r is Ok,
{
    let out = compress_repeat(byte, length);
    if out.len() == 0 {
        return Ok(());
    }
    write_all(&mut wr, out.as_slice())
}

} // verus!
