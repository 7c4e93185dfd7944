//! **AY** file format parser and player initializer.
use vstd::prelude::*;

verus! {

/// How parsing a part of an **AY** file ended when it did not give the part: `Stop` ends a list
/// of parts quietly, `Fail` fails the whole file.
#[derive(Debug, Clone, Copy, PartialEq, Eq, Structural)]
pub enum AyPartError {
    /// The part is missing or malformed; a list of parts ends before it.
    Stop,
    /// The part points outside the file or is cut short; the file is malformed.
    Fail,
}

/// The big-endian 16-bit word at `p`.
pub open spec fn spec_be_u16(raw: Seq<u8>, p: int) -> int {
    raw[p] as int * 256 + raw[p + 1] as int
}

/// The position that the offset field at `p` points to: offsets count from the field itself,
/// and a zero offset points nowhere.
pub open spec fn spec_offset_at(raw: Seq<u8>, p: int) -> Option<int> {
    if spec_be_u16(raw, p) == 0 {
        None
    } else {
        Some(p + spec_be_u16(raw, p))
    }
}

/// The position of the first zero byte at or after `p`.
pub open spec fn spec_zero_from(raw: Seq<u8>, p: int) -> Option<int>
    decreases raw.len() - p,
{
    if p < 0 || p >= raw.len() {
        None
    } else if raw[p] == 0 {
        Some(p)
    } else {
        spec_zero_from(raw, p + 1)
    }
}

/// The zero-terminated string at `o`, if the file holds one there.
pub open spec fn spec_c_string(raw: Seq<u8>, o: int) -> Result<Seq<u8>, AyPartError> {
    if o > raw.len() {
        Err(AyPartError::Fail)
    } else {
        match spec_zero_from(raw, o) {
            Some(z) => Ok(raw.subrange(o, z)),
            None => Err(AyPartError::Stop),
        }
    }
}

/// The string that the offset field at `p` points to: empty when the offset is zero.
pub open spec fn spec_ay_string(raw: Seq<u8>, p: int) -> Result<Seq<u8>, AyPartError> {
    match spec_offset_at(raw, p) {
        None => Ok(Seq::empty()),
        Some(o) => spec_c_string(raw, o),
    }
}

/// The data of a block of `len` bytes at `offset`, cut at the end of the file.
pub open spec fn spec_blob(raw: Seq<u8>, offset: int, len: int) -> Result<Seq<u8>, AyPartError> {
    if offset > raw.len() {
        Err(AyPartError::Fail)
    } else if offset + len > raw.len() {
        Ok(raw.subrange(offset, raw.len() as int))
    } else {
        Ok(raw.subrange(offset, offset + len))
    }
}

/// Whether the block entry at `q` is the end of a list of blocks (a zero address).
pub open spec fn spec_block_ends(raw: Seq<u8>, q: int) -> bool {
    q + 2 <= raw.len() && spec_be_u16(raw, q) == 0
}

/// The data of the block entry at `q`, which is not the end of the list: its address, its
/// length and the offset of its data.
pub open spec fn spec_block_data(raw: Seq<u8>, q: int) -> Result<Seq<u8>, AyPartError> {
    if q + 6 > raw.len() {
        Err(AyPartError::Fail)
    } else {
        match spec_offset_at(raw, q + 4) {
            None => Err(AyPartError::Fail),
            Some(offset) => spec_blob(raw, offset, spec_be_u16(raw, q + 2)),
        }
    }
}

/// The number of blocks in the list of block entries from `q` on, the entries being 6 bytes
/// each and the list ending with a zero address.
pub open spec fn spec_blocks_from(raw: Seq<u8>, q: int) -> Result<nat, AyPartError>
    decreases raw.len() - q,
{
    if q < 0 || q + 2 > raw.len() {
        Err(AyPartError::Fail)
    } else if spec_be_u16(raw, q) == 0 {
        Ok(0)
    } else {
        match spec_block_data(raw, q) {
            Err(e) => Err(e),
            Ok(_) => match spec_blocks_from(raw, q + 6) {
                Err(e) => Err(e),
                Ok(n) => Ok(n + 1),
            },
        }
    }
}

/// The number of blocks of a song's data at `d`: there must be at least one.
pub open spec fn spec_song_blocks(raw: Seq<u8>, d: int) -> Result<nat, AyPartError> {
    if d > raw.len() {
        Err(AyPartError::Fail)
    } else {
        match spec_blocks_from(raw, d) {
            Ok(n) => if n == 0 {
                Err(AyPartError::Stop)
            } else {
                Ok(n)
            },
            Err(e) => Err(e),
        }
    }
}

/// The positions of the player registers (stack, init, interrupt) and of the blocks of
/// the song information at `i`.
pub open spec fn spec_song_info(raw: Seq<u8>, i: int) -> Result<(int, int), AyPartError> {
    if i > raw.len() {
        Err(AyPartError::Fail)
    } else if i + 14 > raw.len() {
        Err(AyPartError::Stop)
    } else {
        match (spec_offset_at(raw, i + 10), spec_offset_at(raw, i + 12)) {
            (Some(init), Some(data)) => if init > raw.len() {
                Err(AyPartError::Fail)
            } else if init + 6 > raw.len() {
                Err(AyPartError::Stop)
            } else {
                Ok((init, data))
            },
            _ => Err(AyPartError::Stop),
        }
    }
}

/// The position of the song information of the song entry at `s`.
pub open spec fn spec_song_entry(raw: Seq<u8>, s: int) -> Result<int, AyPartError> {
    if s + 4 > raw.len() {
        Err(AyPartError::Stop)
    } else {
        match spec_offset_at(raw, s + 2) {
            Some(i) => Ok(i),
            None => Err(AyPartError::Stop),
        }
    }
}

/// How parsing the song entry at `s` ends.
pub open spec fn spec_song_status(raw: Seq<u8>, s: int) -> Result<(), AyPartError> {
    match spec_song_entry(raw, s) {
        Err(e) => Err(e),
        Ok(i) => match spec_ay_string(raw, s) {
            Err(e) => Err(e),
            Ok(_) => match spec_song_info(raw, i) {
                Err(e) => Err(e),
                Ok((init, data)) => match spec_song_blocks(raw, data) {
                    Err(e) => Err(e),
                    Ok(_) => Ok(()),
                },
            },
        },
    }
}

/// The number of songs parsed from the song entries at `base` on, from the `k`th on, at most
/// `num` of them: the list ends quietly at a song that stops it, and fails at a song that fails.
pub open spec fn spec_songs_count(raw: Seq<u8>, base: int, k: int, num: int) -> Result<nat, AyPartError>
    decreases num - k,
{
    if k >= num {
        Ok(0)
    } else {
        match spec_song_status(raw, base + 4 * k) {
            Err(AyPartError::Stop) => Ok(0),
            Err(AyPartError::Fail) => Err(AyPartError::Fail),
            Ok(()) => match spec_songs_count(raw, base, k + 1, num) {
                Ok(n) => Ok(n + 1),
                Err(e) => Err(e),
            },
        }
    }
}

/// The file has the header of an **AY** file: the tags `ZXAY` and `EMUL`, and a songs offset.
pub open spec fn spec_header_ok(raw: Seq<u8>) -> bool {
    &&& raw.len() >= 20
    &&& raw.subrange(0, 8) == seq![0x5Au8, 0x58, 0x41, 0x59, 0x45, 0x4D, 0x55, 0x4C]
    &&& spec_offset_at(raw, 18) is Some
}

/// Reads the big-endian 16-bit word at `p`.
fn be_u16(raw: &[u8], p: usize) -> (r: u16)
    requires
        p + 2 <= raw@.len(),
    ensures
        r as int == spec_be_u16(raw@, p as int),
{
    raw[p] as u16 * 256 + raw[p + 1] as u16
}

/// Reads the offset field at `p`.
fn offset_at(raw: &[u8], p: usize) -> (r: Option<usize>)
    requires
        p + 2 <= raw@.len(),
        raw@.len() + 0x10000 <= usize::MAX,
    ensures
        match r {
            Some(o) => spec_offset_at(raw@, p as int) == Some(o as int),
            None => spec_offset_at(raw@, p as int) is None,
        },
{
    let v = be_u16(raw, p);
    if v == 0 {
        None
    } else {
        Some(p + v as usize)
    }
}

/// Finds the first zero byte at or after `p`.
fn zero_from(raw: &[u8], p: usize) -> (r: Option<usize>)
    requires
        p <= raw@.len(),
    ensures
        match r {
            Some(z) => spec_zero_from(raw@, p as int) == Some(z as int) && p <= z < raw@.len(),
            None => spec_zero_from(raw@, p as int) is None,
        },
{
    let mut z: usize = p;
    while z < raw.len()
        invariant
            p <= z <= raw@.len(),
            spec_zero_from(raw@, p as int) == spec_zero_from(raw@, z as int),
        decreases raw@.len() - z,
    {
        if raw[z] == 0 {
            return Some(z);
        }
        z = z + 1;
    }
    None
}

/// Copies the bytes of `raw` from `from` up to `to`.
fn copy_range(raw: &[u8], from: usize, to: usize) -> (r: Vec<u8>)
    requires
        from <= to <= raw@.len(),
    ensures
        r@ == raw@.subrange(from as int, to as int),
{
    let mut r: Vec<u8> = Vec::new();
    let mut k: usize = from;
    while k < to
        invariant
            from <= k <= to <= raw@.len(),
            r@ == raw@.subrange(from as int, k as int),
        decreases to - k,
    {
        r.push(raw[k]);
        k = k + 1;
        proof {
            assert(r@ =~= raw@.subrange(from as int, k as int));
        }
    }
    r
}

/// A block of data of an *AY* song.
#[derive(Debug, Clone)]
pub struct AyBlob(Vec<u8>);

/// A string of an *AY* file.
#[derive(Debug, Clone)]
pub struct AyString(Vec<u8>);

impl AyBlob {
    /// The bytes of the block.
    pub closed spec fn spec_bytes(&self) -> Seq<u8> {
        self.0@
    }

    /// Returns a reference to data.
    pub fn as_slice(&self) -> (r: &[u8])
        ensures
            r@ == self.spec_bytes(),
    {
        self.0.as_slice()
    }

    /// Returns the length of the data.
    pub fn len(&self) -> (r: usize)
        ensures
            r == self.spec_bytes().len(),
    {
        self.0.len()
    }
}

impl AyString {
    /// The bytes of the string.
    pub closed spec fn spec_bytes(&self) -> Seq<u8> {
        self.0@
    }

    /// Returns a reference to the string as array of bytes.
    pub fn as_slice(&self) -> (r: &[u8])
        ensures
            r@ == self.spec_bytes(),
    {
        self.0.as_slice()
    }
}

/// The type of a parsed *AY* song's memory block.
#[derive(Debug, Clone)]
pub struct AySongBlock {
    /// A target 64kb memory address of this block.
    pub address: u16,
    /// A block of data.
    pub data: AyBlob,
}

/// The type of a parsed *AY* file's song.
#[derive(Debug, Clone)]
pub struct AySong {
    /// The name of the song.
    pub name: AyString,
    /// Mapping of AY-3-891x channel A to Amiga channel.
    pub chan_a: u8,
    /// Mapping of AY-3-891x channel B to Amiga channel.
    pub chan_b: u8,
    /// Mapping of AY-3-891x channel C to Amiga channel.
    pub chan_c: u8,
    /// Mapping of AY-3-891x noise to Amiga channel.
    pub noise: u8,
    /// The duration of the song in frames.
    pub song_duration: u16,
    /// The fade duration of the song in frames.
    pub fade_duration: u16,
    /// The content loaded into the `Z80` registers: `A,B,D,H,IXh,IYh`.
    pub hi_reg: u8,
    /// The content loaded into the `Z80` registers: `F,C,E,L,IXl,IYl`.
    pub lo_reg: u8,
    /// The content loaded into the `Z80` `SP` register.
    pub stack: u16,
    /// The address in 64kb memory of the initialization routine.
    pub init: u16,
    /// The address in 64kb memory of the interrupt routine.
    pub interrupt: u16,
    /// The list of song's memory blocks.
    pub blocks: Vec<AySongBlock>,
}

/// The type of a parsed *AY* file meta-data.
#[derive(Debug, Clone)]
pub struct AyMeta {
    /// *AY* file version.
    pub file_version: u8,
    /// Player minimum version required.
    pub player_version: u8,
    /// Does the *AY* file require a special player written in MC68k code?
    pub special_player: bool,
    /// The *AY* file author's name.
    pub author: AyString,
    /// Miscellaneous text.
    pub misc: AyString,
    /// Index of the first song.
    pub first_song: u8,
}

/// A parsed *AY* file: the data it was parsed from, its meta-data and its songs.
#[derive(Debug, Clone)]
pub struct AyFile {
    /// The original parsed data owned by this struct.
    pub raw: Vec<u8>,
    /// *AY* file meta-data.
    pub meta: AyMeta,
    /// The list of *AY* songs.
    pub songs: Vec<AySong>,
}

/// The type of the error returned by the *AY* file parser.
#[derive(Clone, Debug, PartialEq, Eq)]
pub struct AyParseError {
    /// Data parsed.
    pub data: Vec<u8>,
    /// The part of the file that could not be parsed.
    pub description: String,
}

/// The blocks of `blocks` are those of the block entries from `q` on.
pub open spec fn spec_blocks_at(raw: Seq<u8>, q: int, blocks: Seq<AySongBlock>) -> bool {
    forall|j: int|
        0 <= j < blocks.len() ==> #[trigger] blocks[j].address == spec_be_u16(raw, q + 6 * j)
            && spec_block_data(raw, q + 6 * j) == Ok::<Seq<u8>, AyPartError>(blocks[j].data.spec_bytes())
}

/// `song` holds what the song entry at `s` says, provided it parses.
pub open spec fn spec_song_at(raw: Seq<u8>, s: int, song: AySong) -> bool {
    let i = spec_song_entry(raw, s)->Ok_0;
    let (init, data) = spec_song_info(raw, i)->Ok_0;
    &&& spec_ay_string(raw, s) == Ok::<Seq<u8>, AyPartError>(song.name.spec_bytes())
    &&& song.chan_a == raw[i]
    &&& song.chan_b == raw[i + 1]
    &&& song.chan_c == raw[i + 2]
    &&& song.noise == raw[i + 3]
    &&& song.song_duration == spec_be_u16(raw, i + 4)
    &&& song.fade_duration == spec_be_u16(raw, i + 6)
    &&& song.hi_reg == raw[i + 8]
    &&& song.lo_reg == raw[i + 9]
    &&& song.stack == spec_be_u16(raw, init)
    &&& song.init == spec_be_u16(raw, init + 2)
    &&& song.interrupt == spec_be_u16(raw, init + 4)
    &&& spec_song_blocks(raw, data) == Ok::<nat, AyPartError>(song.blocks@.len())
    &&& spec_blocks_at(raw, data, song.blocks@)
}

/// Reads the string that the offset field at `p` points to.
fn ay_string(raw: &[u8], p: usize) -> (r: Result<AyString, AyPartError>)
    requires
        p + 2 <= raw@.len(),
        raw@.len() + 0x10000 <= usize::MAX,
    ensures
        match r {
            Ok(s) => spec_ay_string(raw@, p as int) == Ok::<Seq<u8>, AyPartError>(s.spec_bytes()),
            Err(e) => spec_ay_string(raw@, p as int) == Err::<Seq<u8>, AyPartError>(e),
        },
{
    match offset_at(raw, p) {
        None => Ok(AyString(Vec::new())),
        Some(o) => {
            if o > raw.len() {
                return Err(AyPartError::Fail);
            }
            match zero_from(raw, o) {
                Some(z) => Ok(AyString(copy_range(raw, o, z))),
                None => Err(AyPartError::Stop),
            }
        },
    }
}

/// Reads the data of the block entry at `q`.
fn block_data(raw: &[u8], q: usize) -> (r: Result<AyBlob, AyPartError>)
    requires
        raw@.len() + 0x10000 <= usize::MAX,
        q <= raw@.len(),
    ensures
        match r {
            Ok(b) => spec_block_data(raw@, q as int) == Ok::<Seq<u8>, AyPartError>(b.spec_bytes()),
            Err(e) => spec_block_data(raw@, q as int) == Err::<Seq<u8>, AyPartError>(e),
        },
{
    if q + 6 > raw.len() {
        return Err(AyPartError::Fail);
    }
    let len = be_u16(raw, q + 2) as usize;
    match offset_at(raw, q + 4) {
        None => Err(AyPartError::Fail),
        Some(offset) => {
            if offset > raw.len() {
                Err(AyPartError::Fail)
            } else if offset + len > raw.len() {
                Ok(AyBlob(copy_range(raw, offset, raw.len())))
            } else {
                Ok(AyBlob(copy_range(raw, offset, offset + len)))
            }
        },
    }
}

/// Reads the blocks of a song's data at `d`.
fn song_blocks(raw: &[u8], d: usize) -> (r: Result<Vec<AySongBlock>, AyPartError>)
    requires
        raw@.len() + 0x10000 <= usize::MAX,
    ensures
        match r {
            Ok(blocks) => spec_song_blocks(raw@, d as int) == Ok::<nat, AyPartError>(blocks@.len())
                && spec_blocks_at(raw@, d as int, blocks@),
            Err(e) => spec_song_blocks(raw@, d as int) == Err::<nat, AyPartError>(e),
        },
{
    if d > raw.len() {
        return Err(AyPartError::Fail);
    }
    let mut blocks: Vec<AySongBlock> = Vec::new();
    let mut q: usize = d;
    loop
        invariant
            raw@.len() + 0x10000 <= usize::MAX,
            d <= q <= raw@.len(),
            q == d + 6 * blocks@.len(),
            spec_blocks_from(raw@, d as int) == (match spec_blocks_from(raw@, q as int) {
                Ok(n) => Ok::<nat, AyPartError>(n + blocks@.len()),
                Err(e) => Err(e),
            }),
            spec_blocks_at(raw@, d as int, blocks@),
        decreases raw@.len() - q,
    {
        if q + 2 > raw.len() {
            return Err(AyPartError::Fail);
        }
        let address = be_u16(raw, q);
        if address == 0 {
            if blocks.len() == 0 {
                return Err(AyPartError::Stop);
            }
            return Ok(blocks);
        }
        let data = match block_data(raw, q) {
            Ok(data) => data,
            Err(e) => {
                return Err(e);
            },
        };
        let ghost before = blocks@;
        blocks.push(AySongBlock { address, data });
        proof {
            assert forall|j: int| 0 <= j < blocks@.len() implies #[trigger] blocks@[j].address
                == spec_be_u16(raw@, d + 6 * j) && spec_block_data(raw@, d + 6 * j) == Ok::<
                Seq<u8>,
                AyPartError,
            >(blocks@[j].data.spec_bytes()) by {
                if j < before.len() {
                    assert(blocks@[j] == before[j]);
                }
            }
        }
        q = q + 6;
    }
}

/// Reads the song entry at `s`.
fn parse_song(raw: &[u8], s: usize) -> (r: Result<AySong, AyPartError>)
    requires
        raw@.len() + 0x10000 <= usize::MAX,
        s <= raw@.len() + 0x400,
    ensures
        match r {
            Ok(song) => spec_song_status(raw@, s as int) is Ok && spec_song_at(raw@, s as int, song),
            Err(e) => spec_song_status(raw@, s as int) == Err::<(), AyPartError>(e),
        },
{
    if s > raw.len() || raw.len() - s < 4 {
        return Err(AyPartError::Stop);
    }
    let i = match offset_at(raw, s + 2) {
        Some(i) => i,
        None => {
            return Err(AyPartError::Stop);
        },
    };
    let name = match ay_string(raw, s) {
        Ok(name) => name,
        Err(e) => {
            return Err(e);
        },
    };
    if i > raw.len() {
        return Err(AyPartError::Fail);
    }
    if i + 14 > raw.len() {
        return Err(AyPartError::Stop);
    }
    let (init_pos, data_pos) = match (offset_at(raw, i + 10), offset_at(raw, i + 12)) {
        (Some(init_pos), Some(data_pos)) => (init_pos, data_pos),
        _ => {
            return Err(AyPartError::Stop);
        },
    };
    if init_pos > raw.len() {
        return Err(AyPartError::Fail);
    }
    if init_pos + 6 > raw.len() {
        return Err(AyPartError::Stop);
    }
    let blocks = match song_blocks(raw, data_pos) {
        Ok(blocks) => blocks,
        Err(e) => {
            return Err(e);
        },
    };
    Ok(
        AySong {
            name,
            chan_a: raw[i],
            chan_b: raw[i + 1],
            chan_c: raw[i + 2],
            noise: raw[i + 3],
            song_duration: be_u16(raw, i + 4),
            fade_duration: be_u16(raw, i + 6),
            hi_reg: raw[i + 8],
            lo_reg: raw[i + 9],
            stack: be_u16(raw, init_pos),
            init: be_u16(raw, init_pos + 2),
            interrupt: be_u16(raw, init_pos + 4),
            blocks,
        },
    )
}

/// The position of the first song entry of a file with an *AY* header.
pub open spec fn spec_songs_base(raw: Seq<u8>) -> int {
    spec_offset_at(raw, 18)->Some_0
}

/// The number of songs of a file with an *AY* header: as many as the header says, unless
/// the list ends early.
pub open spec fn spec_ay_songs(raw: Seq<u8>) -> Result<nat, AyPartError> {
    if spec_songs_base(raw) > raw.len() {
        Err(AyPartError::Fail)
    } else {
        spec_songs_count(raw, spec_songs_base(raw), 0, raw[16] as int + 1)
    }
}

/// `raw` is an *AY* file: it has the header, the author and miscellaneous strings, and its
/// list of songs does not fail.
pub open spec fn spec_ay_ok(raw: Seq<u8>) -> bool {
    &&& spec_header_ok(raw)
    &&& spec_ay_string(raw, 12) is Ok
    &&& spec_ay_string(raw, 14) is Ok
    &&& spec_ay_songs(raw) is Ok
}

/// Parses the songs of the song entries from `base` on, at most `num` of them.
fn parse_songs(raw: &[u8], base: usize, num: usize) -> (r: Result<Vec<AySong>, AyPartError>)
    requires
        raw@.len() + 0x10000 <= usize::MAX,
        base <= raw@.len(),
        num <= 256,
    ensures
        match r {
            Ok(songs) => spec_songs_count(raw@, base as int, 0, num as int) == Ok::<nat, AyPartError>(
                songs@.len(),
            ) && forall|k: int|
                0 <= k < songs@.len() ==> spec_song_at(raw@, base + 4 * k, #[trigger] songs@[k]),
            Err(e) => spec_songs_count(raw@, base as int, 0, num as int) == Err::<nat, AyPartError>(e),
        },
{
    let mut songs: Vec<AySong> = Vec::new();
    let mut k: usize = 0;
    while k < num
        invariant
            raw@.len() + 0x10000 <= usize::MAX,
            base <= raw@.len(),
            num <= 256,
            k <= num,
            songs@.len() == k,
            spec_songs_count(raw@, base as int, 0, num as int) == (match spec_songs_count(
                raw@,
                base as int,
                k as int,
                num as int,
            ) {
                Ok(n) => Ok::<nat, AyPartError>(n + k as nat),
                Err(e) => Err(e),
            }),
            forall|j: int| 0 <= j < songs@.len() ==> spec_song_at(raw@, base + 4 * j, #[trigger] songs@[j]),
        decreases num - k,
    {
        match parse_song(raw, base + 4 * k) {
            Ok(song) => {
                songs.push(song);
            },
            Err(AyPartError::Stop) => {
                return Ok(songs);
            },
            Err(AyPartError::Fail) => {
                return Err(AyPartError::Fail);
            },
        }
        k = k + 1;
    }
    Ok(songs)
}

/// Parses given `data` and returns an [AyFile] owning `data`.
/// On error returns the `data` wrapped in [AyParseError].
pub fn parse_ay(data: Vec<u8>) -> (r: Result<AyFile, AyParseError>)
    requires
        data@.len() + 0x10000 <= usize::MAX,
    ensures
        match r {
            Ok(file) => {
                &&& spec_ay_ok(data@)
                &&& file.raw@ == data@
                &&& file.meta.file_version == data@[8]
                &&& file.meta.player_version == data@[9]
                &&& file.meta.special_player == (spec_be_u16(data@, 10) != 0)
                &&& spec_ay_string(data@, 12) == Ok::<Seq<u8>, AyPartError>(file.meta.author.spec_bytes())
                &&& spec_ay_string(data@, 14) == Ok::<Seq<u8>, AyPartError>(file.meta.misc.spec_bytes())
                &&& file.meta.first_song == data@[17]
                &&& spec_ay_songs(data@) == Ok::<nat, AyPartError>(file.songs@.len())
                &&& forall|k: int|
                    0 <= k < file.songs@.len() ==> spec_song_at(
                        data@,
                        spec_songs_base(data@) + 4 * k,
                        #[trigger] file.songs@[k],
                    )
            },
            Err(e) => !spec_ay_ok(data@) && e.data@ == data@,
        },
{
    let raw = data.as_slice();
    assert(raw@ == data@);
    let tags: [u8; 8] = [0x5A, 0x58, 0x41, 0x59, 0x45, 0x4D, 0x55, 0x4C];
    assert(tags@ =~= seq![0x5Au8, 0x58, 0x41, 0x59, 0x45, 0x4D, 0x55, 0x4C]);
    if raw.len() < 20 {
        return Err(AyParseError { data, description: "missing header parts".to_owned() });
    }
    let mut t: usize = 0;
    while t < 8
        invariant
            t <= 8,
            raw@.len() >= 20,
            raw@ == data@,
            tags@ == seq![0x5Au8, 0x58, 0x41, 0x59, 0x45, 0x4D, 0x55, 0x4C],
            forall|j: int| 0 <= j < t ==> raw@[j] == tags@[j],
        decreases 8 - t,
    {
        if raw[t] != tags[t] {
            proof {
                assert(raw@.subrange(0, 8)[t as int] != seq![0x5Au8, 0x58, 0x41, 0x59, 0x45, 0x4D, 0x55, 0x4C][t as int]);
                assert(raw@.subrange(0, 8) != seq![0x5Au8, 0x58, 0x41, 0x59, 0x45, 0x4D, 0x55, 0x4C]);
                assert(!spec_header_ok(data@));
            }
            return Err(AyParseError { data, description: "tag ZXAY".to_owned() });
        }
        t = t + 1;
    }
    proof {
        assert(raw@.subrange(0, 8) =~= seq![0x5Au8, 0x58, 0x41, 0x59, 0x45, 0x4D, 0x55, 0x4C]);
    }
    let base = match offset_at(raw, 18) {
        Some(base) => base,
        None => {
            return Err(AyParseError { data, description: "songs offs.".to_owned() });
        },
    };
    let author = match ay_string(raw, 12) {
        Ok(author) => author,
        Err(_) => {
            return Err(AyParseError { data, description: "author".to_owned() });
        },
    };
    let misc = match ay_string(raw, 14) {
        Ok(misc) => misc,
        Err(_) => {
            return Err(AyParseError { data, description: "misc".to_owned() });
        },
    };
    if base > raw.len() {
        return Err(AyParseError { data, description: "songs offs.".to_owned() });
    }
    let songs = match parse_songs(raw, base, raw[16] as usize + 1) {
        Ok(songs) => songs,
        Err(_) => {
            return Err(AyParseError { data, description: "song data".to_owned() });
        },
    };
    let meta = AyMeta {
        file_version: raw[8],
        player_version: raw[9],
        special_player: be_u16(raw, 10) != 0,
        author,
        misc,
        first_song: raw[17],
    };
    Ok(AyFile { raw: data, meta, songs })
}

/// Lets `core::str::Utf8Error` stand in verified signatures; its contents stay opaque.
#[verifier::external_type_specification]
#[verifier::external_body]
pub struct ExUtf8Error(core::str::Utf8Error);

/// The text that `bytes` stand for in UTF-8, if they are valid UTF-8.
pub uninterp spec fn spec_utf8(bytes: Seq<u8>) -> Option<Seq<char>>;

/// The text that `bytes` stand for in UTF-8, with each invalid sequence replaced by U+FFFD.
pub uninterp spec fn spec_utf8_lossy(bytes: Seq<u8>) -> Seq<char>;

/// Decodes `bytes` as UTF-8 with `core::str::from_utf8`.
///
/// Stated: the result is the named decoding of `bytes`, and an error exactly when there is none.
#[verifier::external_body]
fn str_from_utf8(bytes: &[u8]) -> (r: Result<&str, core::str::Utf8Error>)
    ensures
        match r {
            Ok(s) => spec_utf8(bytes@) == Some(s@),
            Err(_) => spec_utf8(bytes@) is None,
        },
{
    core::str::from_utf8(bytes)
}

/// Decodes `bytes` as UTF-8 with `String::from_utf8_lossy`, taking the result as an owned string.
///
/// Stated: the result is the named lossy decoding of `bytes`, which is the plain decoding when
/// `bytes` are valid UTF-8, as the documentation of `from_utf8_lossy` says.
#[verifier::external_body]
fn string_from_utf8_lossy(bytes: &[u8]) -> (r: String)
    ensures
        r@ == spec_utf8_lossy(bytes@),
        (spec_utf8(bytes@) matches Some(text) ==> r@ == text),
{
    String::from_utf8_lossy(bytes).into_owned()
}

impl AyString {
    /// Returns a string reference if the underlying bytes can form a proper UTF-8 string.
    pub fn to_str(&self) -> (r: Result<&str, core::str::Utf8Error>)
        ensures
            match r {
                Ok(s) => spec_utf8(self.spec_bytes()) == Some(s@),
                Err(_) => spec_utf8(self.spec_bytes()) is None,
            },
    {
        str_from_utf8(self.0.as_slice())
    }

    /// Returns the string, with each invalid UTF-8 sequence replaced by U+FFFD.
    pub fn to_str_lossy(&self) -> (r: String)
        ensures
            r@ == spec_utf8_lossy(self.spec_bytes()),
            (spec_utf8(self.spec_bytes()) matches Some(text) ==> r@ == text),
    {
        string_from_utf8_lossy(self.0.as_slice())
    }
}

/// The player routine for songs without an interrupt routine:
/// `di; call init; loop: im 2; ei; halt; jr loop`.
pub open spec fn spec_player_one() -> Seq<u8> {
    seq![0xF3u8, 0xCD, 0x00, 0x00, 0xED, 0x5E, 0xFB, 0x76, 0x18, 0xFA]
}

/// The player routine for songs with an interrupt routine:
/// `di; call init; loop: im 1; ei; halt; call interrupt; jr loop`.
pub open spec fn spec_player_two() -> Seq<u8> {
    seq![0xF3u8, 0xCD, 0x00, 0x00, 0xED, 0x56, 0xFB, 0x76, 0xCD, 0x00, 0x00, 0x18, 0xF7]
}

/// The address of the routine that initializes `song`: the address of its first block when
/// the song names none.
pub open spec fn spec_init_address(song: AySong) -> u16 {
    if song.init == 0 {
        song.blocks@[0].address
    } else {
        song.init
    }
}

/// The player routine of `song`, with the addresses of its routines filled in.
pub open spec fn spec_player_code(song: AySong) -> Seq<u8> {
    let init = spec_init_address(song);
    if song.interrupt == 0 {
        spec_player_one().update(2, (init % 256) as u8).update(3, (init / 256) as u8)
    } else {
        spec_player_two().update(9, (song.interrupt % 256) as u8).update(
            10,
            (song.interrupt / 256) as u8,
        ).update(2, (init % 256) as u8).update(3, (init / 256) as u8)
    }
}

/// The memory of `len` bytes before the blocks of `song` are loaded: the player routine at 0,
/// `ret` instructions up to 0x100 but for `ei` at 0x38, 0xFF up to 0x4000, zeros above.
pub open spec fn spec_memory_before_blocks(len: nat, song: AySong) -> Seq<u8> {
    let code = spec_player_code(song);
    Seq::new(
        len,
        |a: int|
            if a < code.len() {
                code[a]
            } else if a == 0x38 {
                0xFBu8
            } else if a < 0x100 {
                0xC9u8
            } else if a < 0x4000 {
                0xFFu8
            } else {
                0u8
            },
    )
}

/// The part of the data of a block at `address` that is loaded: data reaching past the end of
/// the 64kb memory is cut at 0xFFFF.
pub open spec fn spec_loaded_data(address: u16, data: Seq<u8>) -> Seq<u8> {
    if address + data.len() > 0x10000 {
        data.subrange(0, 0xFFFF - address)
    } else {
        data
    }
}

/// `mem` with `data` of a block at `address` loaded.
pub open spec fn spec_load_block(mem: Seq<u8>, address: u16, data: Seq<u8>) -> Seq<u8> {
    let d = spec_loaded_data(address, data);
    Seq::new(mem.len(), |a: int| if address <= a < address + d.len() { d[a - address] } else { mem[a] })
}

/// `mem` with `blocks` loaded in order.
pub open spec fn spec_load_blocks(mem: Seq<u8>, blocks: Seq<AySongBlock>) -> Seq<u8>
    decreases blocks.len(),
{
    if blocks.len() == 0 {
        mem
    } else {
        spec_load_blocks(
            spec_load_block(mem, blocks[0].address, blocks[0].data.spec_bytes()),
            blocks.drop_first(),
        )
    }
}

/// Loading blocks that all start above the address `a` leaves the byte at `a`, and the size of
/// the memory, as they were.
proof fn lemma_load_blocks_below(mem: Seq<u8>, blocks: Seq<AySongBlock>, a: int)
    requires
        0 <= a < mem.len(),
        forall|k: int| 0 <= k < blocks.len() ==> blocks[k].address > a,
    ensures
        spec_load_blocks(mem, blocks).len() == mem.len(),
        spec_load_blocks(mem, blocks)[a] == mem[a],
    decreases blocks.len(),
{
    if blocks.len() > 0 {
        let m1 = spec_load_block(mem, blocks[0].address, blocks[0].data.spec_bytes());
        assert(m1[a] == mem[a]);
        assert forall|k: int| 0 <= k < blocks.drop_first().len() implies blocks.drop_first()[k].address > a by {
            assert(blocks.drop_first()[k] == blocks[k + 1]);
        }
        lemma_load_blocks_below(m1, blocks.drop_first(), a);
    }
}

/// The player set up for `song` in memory of `len` bytes is, from address 0: `di`, a call of
/// the song's init routine (the address of its first block when it names none), then a loop
/// that waits for an interrupt with `ei; halt` in the interrupt mode 1 and calls the song's
/// interrupt routine, or, when the song has no interrupt routine, waits in the interrupt mode 2.
/// Each call's operand is the routine's address in little-endian order, and each loop jumps
/// back to its `im` instruction at 4.
pub proof fn lemma_player_calls_song_routines(song: AySong, len: nat)
    requires
        len >= 0x100,
        song.init == 0 ==> song.blocks@.len() > 0,
    ensures
        ({
            let mem = spec_memory_before_blocks(len, song);
            let init: u16 = if song.init == 0 { song.blocks@[0].address } else { song.init };
            &&& mem.len() == len
            &&& mem[0] == 0xF3 && mem[1] == 0xCD
            &&& mem[2] == init % 256 && mem[3] == init / 256
            &&& mem[4] == 0xED && mem[6] == 0xFB && mem[7] == 0x76
            &&& song.interrupt != 0 ==> {
                &&& mem[5] == 0x56
                &&& mem[8] == 0xCD
                &&& mem[9] == song.interrupt % 256 && mem[10] == song.interrupt / 256
                &&& mem[11] == 0x18 && 13 - (256 - mem[12]) == 4
            }
            &&& song.interrupt == 0 ==> {
                &&& mem[5] == 0x5E
                &&& mem[8] == 0x18 && 10 - (256 - mem[9]) == 4
            }
        }),
{
}

/// The values of the `Z80` registers that a player starts with: besides these, `PC` is 0,
/// the interrupt mode is 0 and the interrupts are disabled.
#[derive(Debug, Clone, Copy, PartialEq, Eq)]
pub struct AyPlayerCpu {
    /// The `I` register: the player version of the file.
    pub i: u8,
    /// The registers `A`, `B`, `D`, `H`, `IXh`, `IYh` and the alternate `A'`, `B'`, `D'`, `H'`.
    pub hi_reg: u8,
    /// The registers `F`, `C`, `E`, `L`, `IXl`, `IYl` and the alternate `F'`, `C'`, `E'`, `L'`.
    pub lo_reg: u8,
    /// The `SP` register.
    pub stack: u16,
}

/// Loads `data` of a block at `address` into `mem`.
fn load_block(mem: &mut [u8], address: u16, data: &[u8])
    requires
        old(mem)@.len() >= 0x10000,
    ensures
        final(mem)@ == spec_load_block(old(mem)@, address, data@),
{
    let address = address as usize;
    let len: usize = if data.len() > 0x10000 - address {
        0xFFFF - address
    } else {
        data.len()
    };
    let ghost d = spec_loaded_data(address as u16, data@);
    assert(d.len() == len);
    let mut k: usize = 0;
    while k < len
        invariant
            k <= len,
            len == d.len(),
            address + len <= 0x10000,
            d == spec_loaded_data(address as u16, data@),
            d.len() <= data@.len(),
            mem@.len() == old(mem)@.len(),
            old(mem)@.len() >= 0x10000,
            forall|a: int| 0 <= a < mem@.len() ==> mem@[a] == (if address <= a < address + k {
                d[a - address]
            } else {
                old(mem)@[a]
            }),
        decreases len - k,
    {
        mem[address + k] = data[k];
        k = k + 1;
    }
    assert(mem@ =~= spec_load_block(old(mem)@, address as u16, data@));
}

impl AyFile {
    /// Initializes memory, creates a player routine and loads the song data into memory, for
    /// the song `song_index` of this file. Returns the values of the CPU registers that the
    /// player starts with.
    pub fn initialize_player(&self, mem: &mut [u8], song_index: usize) -> (r: AyPlayerCpu)
        requires
            !self.meta.special_player,
            song_index < self.songs@.len(),
            old(mem)@.len() >= 0x10000,
            self.songs@[song_index as int].init == 0 ==> self.songs@[song_index as int].blocks@.len() > 0,
        ensures
            final(mem)@ == spec_load_blocks(
                spec_memory_before_blocks(old(mem)@.len(), self.songs@[song_index as int]),
                self.songs@[song_index as int].blocks@,
            ),
            r == (AyPlayerCpu {
                i: self.meta.player_version,
                hi_reg: self.songs@[song_index as int].hi_reg,
                lo_reg: self.songs@[song_index as int].lo_reg,
                stack: self.songs@[song_index as int].stack,
            }),
            ({
                let song = self.songs@[song_index as int];
                let init: u16 = if song.init == 0 { song.blocks@[0].address } else { song.init };
                (forall|k: int| 0 <= k < song.blocks@.len() ==> song.blocks@[k].address >= 0x100) ==> {
                    &&& final(mem)@[1] == 0xCD
                    &&& final(mem)@[2] == init % 256 && final(mem)@[3] == init / 256
                    &&& song.interrupt != 0 ==> final(mem)@[8] == 0xCD && final(mem)@[9] == song.interrupt % 256
                        && final(mem)@[10] == song.interrupt / 256
                }
            }),
    {
        let song = &self.songs[song_index];
        let init: u16 = if song.init == 0 {
            song.blocks[0].address
        } else {
            song.init
        };
        let player: Vec<u8> = if song.interrupt == 0 {
            vec![0xF3u8, 0xCD, 0x00, 0x00, 0xED, 0x5E, 0xFB, 0x76, 0x18, 0xFA]
        } else {
            let mut code = vec![0xF3u8, 0xCD, 0x00, 0x00, 0xED, 0x56, 0xFB, 0x76, 0xCD, 0x00, 0x00, 0x18, 0xF7];
            code.set(9, (song.interrupt % 256) as u8);
            code.set(10, (song.interrupt / 256) as u8);
            code
        };
        let mut code = player;
        code.set(2, (init % 256) as u8);
        code.set(3, (init / 256) as u8);
        proof {
            assert(code@ =~= spec_player_code(*song));
        }
        let len = mem.len();
        let mut a: usize = 0;
        while a < len
            invariant
                a <= len,
                len == mem@.len(),
                len == old(mem)@.len(),
                code@ == spec_player_code(*song),
                forall|j: int| 0 <= j < a ==> mem@[j] == spec_memory_before_blocks(len as nat, *song)[j],
            decreases len - a,
        {
            let byte: u8 = if a < code.len() {
                code[a]
            } else if a == 0x38 {
                0xFB
            } else if a < 0x100 {
                0xC9
            } else if a < 0x4000 {
                0xFF
            } else {
                0
            };
            mem[a] = byte;
            a = a + 1;
        }
        proof {
            assert(mem@ =~= spec_memory_before_blocks(len as nat, *song));
            assert(song.blocks@.skip(0) =~= song.blocks@);
        }
        let mut b: usize = 0;
        while b < song.blocks.len()
            invariant
                b <= song.blocks@.len(),
                mem@.len() == old(mem)@.len(),
                old(mem)@.len() >= 0x10000,
                spec_load_blocks(spec_memory_before_blocks(len as nat, *song), song.blocks@)
                    == spec_load_blocks(mem@, song.blocks@.skip(b as int)),
            decreases song.blocks@.len() - b,
        {
            let block = &song.blocks[b];
            proof {
                let rest = song.blocks@.skip(b as int);
                assert(rest[0] == *block);
                assert(rest.drop_first() =~= song.blocks@.skip(b + 1));
            }
            load_block(mem, block.address, block.data.as_slice());
            b = b + 1;
        }
        proof {
            assert(song.blocks@.skip(b as int) =~= Seq::<AySongBlock>::empty());
            let before = spec_memory_before_blocks(len as nat, *song);
            lemma_player_calls_song_routines(*song, len as nat);
            if forall|k: int| 0 <= k < song.blocks@.len() ==> song.blocks@[k].address >= 0x100 {
                lemma_load_blocks_below(before, song.blocks@, 1);
                lemma_load_blocks_below(before, song.blocks@, 2);
                lemma_load_blocks_below(before, song.blocks@, 3);
                lemma_load_blocks_below(before, song.blocks@, 8);
                lemma_load_blocks_below(before, song.blocks@, 9);
                lemma_load_blocks_below(before, song.blocks@, 10);
            }
        }
        AyPlayerCpu {
            i: self.meta.player_version,
            hi_reg: song.hi_reg,
            lo_reg: song.lo_reg,
            stack: song.stack,
        }
    }
}

} // verus!
