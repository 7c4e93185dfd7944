//! **Z80** snapshot format.
use vstd::prelude::*;

pub mod common;
pub mod compress;
pub mod decompress;
pub mod loader;
pub mod saver;

use compress::{
    spec_compress, spec_compress_from, spec_compress_repeat, spec_is_block, spec_lone_ed_at,
    spec_run_len, spec_run_out,
};
use decompress::{spec_decompress, spec_ed_pair_at};

verus! {

/// The facts about a run that the proofs use.
proof fn lemma_run(data: Seq<u8>, i: int)
    requires
        0 <= i < data.len(),
    ensures
        1 <= spec_run_len(data, i) <= 255,
        i + spec_run_len(data, i) <= data.len(),
        forall|j: int| i <= j < i + spec_run_len(data, i) ==> data[j] == data[i],
        spec_run_len(data, i) == 255 || i + spec_run_len(data, i) == data.len() || data[i
            + spec_run_len(data, i)] != data[i],
{
    compress::lemma_run_facts(data, i, 1);
}

/// A block stands for its run.
proof fn lemma_decompress_block(b: u8, count: u8, rest: Seq<u8>)
    ensures
        spec_decompress(seq![0xEDu8, 0xEDu8, count, b] + rest) == Seq::new(count as nat, |j: int| b)
            + spec_decompress(rest),
{
    let data = seq![0xEDu8, 0xEDu8, count, b] + rest;
    assert(data.skip(4) =~= rest);
}

/// Bytes written as they are, not ending in an `ED` byte that another `ED` byte follows,
/// stand for themselves.
proof fn lemma_decompress_run(b: u8, count: int, rest: Seq<u8>)
    requires
        1 <= count,
        b == 0xED ==> count == 1 && (rest.len() == 0 || rest[0] != 0xED),
    ensures
        spec_decompress(Seq::new(count as nat, |j: int| b) + rest) == Seq::new(count as nat, |j: int| b)
            + spec_decompress(rest),
{
    let data = Seq::new(count as nat, |j: int| b) + rest;
    assert forall|j: int| 0 <= j < count implies !spec_ed_pair_at(data, j) by {
        if j + 1 < count {
            assert(data[j] == b && data[j + 1] == b);
        }
    }
    decompress::lemma_decompress_literal(data, count);
    assert(data.subrange(0, count) =~= Seq::new(count as nat, |j: int| b));
    assert(data.skip(count) =~= rest);
}

/// Compressing the bytes from `i` on and decompressing gives them back.
proof fn lemma_round_trip_from(data: Seq<u8>, i: int)
    requires
        0 <= i <= data.len(),
    ensures
        spec_decompress(spec_compress_from(data, i)) == data.skip(i),
    decreases data.len() - i,
{
    if i == data.len() {
        assert(data.skip(i) =~= Seq::<u8>::empty());
    } else {
        lemma_run(data, i);
        let b = data[i];
        let count = spec_run_len(data, i);
        if spec_lone_ed_at(data, i) {
            lemma_round_trip_from(data, i + 2);
            let rest = spec_compress_from(data, i + 2);
            let x = data[i + 1];
            assert(x != 0xED);
            let c = seq![0xEDu8, x] + rest;
            assert(spec_compress_from(data, i) == c);
            assert forall|j: int| 0 <= j < 2 implies !spec_ed_pair_at(c, j) by {
                assert(c[1] == x);
            }
            decompress::lemma_decompress_literal(c, 2);
            assert(c.subrange(0, 2) =~= seq![0xEDu8, x]);
            assert(c.skip(2) =~= rest);
            assert(seq![0xEDu8, x] + data.skip(i + 2) =~= data.skip(i));
        } else {
            let next = i + count;
            lemma_round_trip_from(data, next);
            let rest = spec_compress_from(data, next);
            assert(spec_compress_from(data, i) == spec_run_out(b, count) + rest);
            if spec_is_block(b, count) {
                lemma_decompress_block(b, count as u8, rest);
            } else {
                if b == 0xED {
                    assert(next == data.len());
                    assert(rest =~= Seq::<u8>::empty());
                }
                lemma_decompress_run(b, count, rest);
            }
            assert(Seq::new(count as nat, |j: int| b) + data.skip(next) =~= data.skip(i));
        }
    }
}

/// Decompressing the compressed form of a memory block gives the block back.
pub proof fn lemma_decompress_compressed(data: Seq<u8>)
    ensures
        spec_decompress(spec_compress(data)) == data,
{
    lemma_round_trip_from(data, 0);
    assert(data.skip(0) =~= data);
}

/// Decompressing the compressed form of `length` bytes `byte` gives these bytes back.
pub proof fn lemma_decompress_compressed_repeat(byte: u8, length: int)
    requires
        length >= 0,
    ensures
        spec_decompress(spec_compress_repeat(byte, length)) == Seq::new(length as nat, |j: int| byte),
    decreases length,
{
    let min_len = if byte == 0xED { 2int } else { 5int };
    if length >= min_len {
        let count = if length < 255 { length } else { 255 };
        lemma_decompress_compressed_repeat(byte, length - count);
        lemma_decompress_block(byte, count as u8, spec_compress_repeat(byte, length - count));
        assert(Seq::new(count as nat, |j: int| byte) + Seq::new((length - count) as nat, |j: int| byte)
            =~= Seq::new(length as nat, |j: int| byte));
    } else if length > 0 {
        lemma_decompress_run(byte, length, Seq::empty());
        assert(Seq::new(length as nat, |j: int| byte) + Seq::<u8>::empty() =~= Seq::new(
            length as nat,
            |j: int| byte,
        ));
        assert(spec_decompress(Seq::<u8>::empty()) =~= Seq::<u8>::empty());
    } else {
        assert(Seq::new(length as nat, |j: int| byte) =~= Seq::<u8>::empty());
    }
}

} // verus!
