//! **SCR** file format utilities.
//!
//! Utilities in this module can work with the ULAplus extensions to the **SCR** format:
//!
//! The type of the file is recognized by its total byte size:
//!
//! |  size | description                                                                             |
//! |-------|-----------------------------------------------------------------------------------------|
//! |  6912 | Standard screen data.                                                                   |
//! |  6976 | Standard screen data + 64 palette registers.                                            |
//! | 12288 | Hi-color screen data as primary screen data followed by the secondary screen data.      |
//! | 12352 | Hi-color screen data + 64 palette registers.                                            |
//! | 12289 | Hi-res screen data (primary + secondary) followed by the hi-res color information byte. |
//! | 12353 | Hi-res screen data (primary + secondary + hi-res color) + 64 palette registers.         |
use vstd::prelude::*;

use crate::formats::stream::{new_io_error, read_exact, seek_end, seek_start, write_all, IoErrorKind};
use crate::memory::ScreenArray;

verus! {

/// The size of the pixel data of a screen.
pub const PIXELS_SIZE: usize = 6144;
/// The size of a standard screen file.
pub const SCR_SIZE: u64 = 6912;
/// The size of the ULAplus palette.
pub const PALETTE_SIZE: u64 = 64;
/// The size of a standard screen file with the ULAplus palette.
pub const SCR_PLUS_SIZE: u64 = 6976;
/// The size of a hi-color screen file.
pub const SCR_HICOLOR_SIZE: u64 = 12288;
/// The size of a hi-color screen file with the ULAplus palette.
pub const SCR_HICOLOR_PLUS_SIZE: u64 = 12352;
/// The size of a hi-res screen file.
pub const SCR_HIRES_SIZE: u64 = 12289;
/// The size of a hi-res screen file with the ULAplus palette.
pub const SCR_HIRES_PLUS_SIZE: u64 = 12353;

/// This enum indicates a current or requested screen mode.
#[derive(Debug, Clone, Copy, PartialEq, Eq, Structural)]
pub enum ScrMode {
    /// The default ULA screen mode.
    /// The `bool` should be `true` if the ULAplus palette is or should be supported. Otherwise it's `false`.
    Classic(bool),
    /// The high color SCLD screen mode.
    /// The `bool` should be `true` if the ULAplus palette is or should be supported. Otherwise it's `false`.
    HighColor(bool),
    /// The high resultion SCLD screen mode.
    /// The `u8` is a high resolution color scheme on bits 3 to 5.
    /// The `bool` should be `true` if the ULAplus palette is or should be supported. Otherwise it's `false`.
    HighRes(u8, bool),
}

/// The screen mode of a file of `size` bytes, its hi-res color byte being `color`; `None` when
/// the size is not that of a screen file.
pub open spec fn spec_scr_mode(size: u64, color: u8) -> Option<ScrMode> {
    if size == SCR_SIZE {
        Some(ScrMode::Classic(false))
    } else if size == SCR_PLUS_SIZE {
        Some(ScrMode::Classic(true))
    } else if size == SCR_HICOLOR_SIZE {
        Some(ScrMode::HighColor(false))
    } else if size == SCR_HICOLOR_PLUS_SIZE {
        Some(ScrMode::HighColor(true))
    } else if size == SCR_HIRES_SIZE {
        Some(ScrMode::HighRes(color, false))
    } else if size == SCR_HIRES_PLUS_SIZE {
        Some(ScrMode::HighRes(color, true))
    } else {
        None
    }
}

/// The size of the file a screen in `mode` is saved as.
pub open spec fn spec_scr_size(mode: ScrMode) -> u64 {
    match mode {
        ScrMode::Classic(false) => SCR_SIZE,
        ScrMode::Classic(true) => SCR_PLUS_SIZE,
        ScrMode::HighColor(false) => SCR_HICOLOR_SIZE,
        ScrMode::HighColor(true) => SCR_HICOLOR_PLUS_SIZE,
        ScrMode::HighRes(_, false) => SCR_HIRES_SIZE,
        ScrMode::HighRes(_, true) => SCR_HIRES_PLUS_SIZE,
    }
}

/// A screen saved in a mode is recognized in the same mode from the size of its file.
pub proof fn lemma_scr_size_mode(mode: ScrMode)
    ensures
        spec_scr_mode(spec_scr_size(mode), match mode { ScrMode::HighRes(color, _) => color, _ => 0 }) == Some(mode),
{
}

/// This trait should be implemented by the core chipset emulator types.
pub trait ScreenDataProvider {
    /// Should return a currently selected screen mode.
    fn get_screen_mode(&self) -> ScrMode;
    /// Should set a requested screen `mode` and return `true`.
    /// If the provided `mode` can not be set this method should return `false`.
    fn set_screen_mode(&mut self, mode: ScrMode) -> bool;
    /// Should return a reference to the primary screen data.
    fn screen_primary_ref(&self) -> &ScreenArray;
    /// Should return a mutable reference to the primary screen data.
    fn screen_primary_mut(&mut self) -> &mut ScreenArray;
    /// Should return a reference to the secondary screen data.
    fn screen_secondary_ref(&self) -> &ScreenArray;
    /// Should return a mutable reference to the secondary screen data.
    fn screen_secondary_mut(&mut self) -> &mut ScreenArray;
    /// Should return a reference to the ULAplus palette.
    fn screen_palette_ref(&self) -> &[u8; 64];
    /// Should return a mutable reference to the ULAplus palette.
    fn screen_palette_mut(&mut self) -> &mut [u8; 64];
}

/// Utilities for loading and saving **SCR** files.
///
/// Methods of this trait are implemented automatically for types that implement [ScreenDataProvider].
pub trait LoadScr: ScreenDataProvider {
    /// Attempts to read the `SCR` file from the `src` and load it into the underlying implementation.
    /// See [load_scr].
    fn load_scr<R: std::io::Read + std::io::Seek>(&mut self, scr: R) -> Result<(), std::io::Error>;
    /// Attempts to save the screen from the underlying implementation and write as the `SCR`
    /// file into the `dst`. See [save_scr].
    fn save_scr<W: std::io::Write>(&self, dst: W) -> Result<(), std::io::Error>;
}

impl<T: ScreenDataProvider> LoadScr for T {
    fn load_scr<R: std::io::Read + std::io::Seek>(&mut self, src: R) -> Result<(), std::io::Error> {
        load_scr(self, src)
    }

    fn save_scr<W: std::io::Write>(&self, dst: W) -> Result<(), std::io::Error> {
        save_scr(self, dst)
    }
}

/// Whether a screen in `mode` has the ULAplus palette.
pub open spec fn spec_scr_has_palette(mode: ScrMode) -> bool {
    match mode {
        ScrMode::Classic(p) => p,
        ScrMode::HighColor(p) => p,
        ScrMode::HighRes(_, p) => p,
    }
}

/// The bytes of the **SCR** file of a screen in `mode` with the data `primary` and `secondary`
/// and the palette `palette`: the whole primary screen, or the pixels of both screens, then the
/// hi-res color byte, then the palette, as the mode has them.
pub open spec fn spec_scr_bytes(mode: ScrMode, primary: Seq<u8>, secondary: Seq<u8>, palette: Seq<u8>) -> Seq<u8> {
    let pixels = match mode {
        ScrMode::Classic(_) => primary,
        _ => primary.take(PIXELS_SIZE as int) + secondary.take(PIXELS_SIZE as int),
    };
    let color = match mode {
        ScrMode::HighRes(c, _) => seq![c],
        _ => Seq::empty(),
    };
    pixels + color + if spec_scr_has_palette(mode) {
        palette
    } else {
        Seq::empty()
    }
}

/// What the **SCR** file `b` holds: its screen mode, the data of the primary screen (the whole
/// of it, or its pixels), the pixels of the secondary screen (none in the classic mode) and the
/// palette (none without one); `None` when its size is not that of a screen file.
pub open spec fn spec_scr_parts(b: Seq<u8>) -> Option<(ScrMode, Seq<u8>, Seq<u8>, Seq<u8>)> {
    if b.len() > SCR_HIRES_PLUS_SIZE {
        None
    } else {
        let color = if b.len() == SCR_HIRES_SIZE || b.len() == SCR_HIRES_PLUS_SIZE {
            b[SCR_HICOLOR_SIZE as int]
        } else {
            0
        };
        match spec_scr_mode(b.len() as u64, color) {
            None => None,
            Some(mode) => {
                let (primary, secondary) = match mode {
                    ScrMode::Classic(_) => (b.take(SCR_SIZE as int), Seq::empty()),
                    _ => (b.take(PIXELS_SIZE as int), b.subrange(PIXELS_SIZE as int, SCR_HICOLOR_SIZE as int)),
                };
                let palette = if spec_scr_has_palette(mode) {
                    b.skip(b.len() - PALETTE_SIZE)
                } else {
                    Seq::empty()
                };
                Some((mode, primary, secondary, palette))
            },
        }
    }
}

/// A screen saved as an **SCR** file is read back from it: the same mode, the screen data that
/// the mode uses and the palette when the mode has one.
pub proof fn lemma_scr_round_trip(mode: ScrMode, primary: Seq<u8>, secondary: Seq<u8>, palette: Seq<u8>)
    requires
        primary.len() == SCR_SIZE,
        secondary.len() == SCR_SIZE,
        palette.len() == PALETTE_SIZE,
    ensures
        spec_scr_parts(spec_scr_bytes(mode, primary, secondary, palette)) == Some((
            mode,
            match mode {
                ScrMode::Classic(_) => primary,
                _ => primary.take(PIXELS_SIZE as int),
            },
            match mode {
                ScrMode::Classic(_) => Seq::<u8>::empty(),
                _ => secondary.take(PIXELS_SIZE as int),
            },
            if spec_scr_has_palette(mode) {
                palette
            } else {
                Seq::<u8>::empty()
            },
        )),
        spec_scr_bytes(mode, primary, secondary, palette).len() == spec_scr_size(mode),
{
    let b = spec_scr_bytes(mode, primary, secondary, palette);
    let pixels = match mode {
        ScrMode::Classic(_) => primary,
        _ => primary.take(PIXELS_SIZE as int) + secondary.take(PIXELS_SIZE as int),
    };
    let color: Seq<u8> = match mode {
        ScrMode::HighRes(c, _) => seq![c],
        _ => Seq::empty(),
    };
    let pal: Seq<u8> = if spec_scr_has_palette(mode) { palette } else { Seq::empty() };
    assert(b =~= pixels + color + pal);
    assert(b.take(pixels.len() as int) =~= pixels);
    match mode {
        ScrMode::Classic(_) => {
            assert(b.take(SCR_SIZE as int) =~= primary);
        },
        _ => {
            assert(b.take(PIXELS_SIZE as int) =~= primary.take(PIXELS_SIZE as int));
            assert(b.subrange(PIXELS_SIZE as int, SCR_HICOLOR_SIZE as int) =~= secondary.take(PIXELS_SIZE as int));
        },
    }
    if let ScrMode::HighRes(c, _) = mode {
        assert(b[SCR_HICOLOR_SIZE as int] == c);
    }
    if spec_scr_has_palette(mode) {
        assert(b.skip(b.len() - PALETTE_SIZE) =~= palette);
    }
}

/// Returns the bytes of the **SCR** file of a screen (see [spec_scr_bytes]).
pub fn scr_bytes(mode: ScrMode, primary: &ScreenArray, secondary: &ScreenArray, palette: &[u8; 64]) -> (r: Vec<u8>)
    ensures
        r@ == spec_scr_bytes(mode, primary@, secondary@, palette@),
{
    let mut out: Vec<u8> = Vec::new();
    let prim: &[u8] = primary.as_slice();
    let sec: &[u8] = secondary.as_slice();
    match mode {
        ScrMode::Classic(_) => {
            append(&mut out, prim, SCR_SIZE as usize);
        },
        _ => {
            append(&mut out, prim, PIXELS_SIZE);
            append(&mut out, sec, PIXELS_SIZE);
        },
    }
    if let ScrMode::HighRes(color, _) = mode {
        out.push(color);
    }
    let with_palette = match mode {
        ScrMode::Classic(p) => p,
        ScrMode::HighColor(p) => p,
        ScrMode::HighRes(_, p) => p,
    };
    if with_palette {
        append(&mut out, palette.as_slice(), 64);
    }
    proof {
        let pixels = match mode {
            ScrMode::Classic(_) => primary@,
            _ => primary@.take(PIXELS_SIZE as int) + secondary@.take(PIXELS_SIZE as int),
        };
        assert(primary@.take(SCR_SIZE as int) =~= primary@);
        assert(palette@.take(64) =~= palette@);
        assert(out@ =~= spec_scr_bytes(mode, primary@, secondary@, palette@));
    }
    out
}

/// Appends the first `n` bytes of `src` to `out`.
fn append(out: &mut Vec<u8>, src: &[u8], n: usize)
    requires
        n <= src@.len(),
    ensures
        final(out)@ == old(out)@ + src@.take(n as int),
{
    let mut i: usize = 0;
    while i < n
        invariant
            i <= n <= src@.len(),
            out@ == old(out)@ + src@.take(i as int),
        decreases n - i,
    {
        out.push(src[i]);
        i = i + 1;
        proof {
            assert(out@ =~= old(out)@ + src@.take(i as int));
        }
    }
}

/// The parts of an **SCR** file.
#[derive(Debug)]
pub struct ScrParts {
    /// The screen mode.
    pub mode: ScrMode,
    /// The data of the primary screen: the whole of it, or its pixels.
    pub primary: Vec<u8>,
    /// The pixels of the secondary screen, if the mode has them.
    pub secondary: Vec<u8>,
    /// The palette, if the mode has one.
    pub palette: Vec<u8>,
}

/// Returns what the **SCR** file `b` holds (see [spec_scr_parts]).
pub fn scr_parts(b: &[u8]) -> (r: Option<ScrParts>)
    ensures
        match r {
            None => spec_scr_parts(b@) is None,
            Some(p) => spec_scr_parts(b@) == Some((p.mode, p.primary@, p.secondary@, p.palette@)),
        },
{
    let len = b.len();
    if len > SCR_HIRES_PLUS_SIZE as usize {
        return None;
    }
    let color: u8 = if len == SCR_HIRES_SIZE as usize || len == SCR_HIRES_PLUS_SIZE as usize {
        b[SCR_HICOLOR_SIZE as usize]
    } else {
        0
    };
    let mode = match scr_mode(len as u64, color) {
        Some(mode) => mode,
        None => return None,
    };
    let (primary, secondary) = match mode {
        ScrMode::Classic(_) => (
            vstd::slice::slice_to_vec(vstd::slice::slice_subrange(b, 0, SCR_SIZE as usize)),
            Vec::new(),
        ),
        _ => (
            vstd::slice::slice_to_vec(vstd::slice::slice_subrange(b, 0, PIXELS_SIZE)),
            vstd::slice::slice_to_vec(vstd::slice::slice_subrange(b, PIXELS_SIZE, SCR_HICOLOR_SIZE as usize)),
        ),
    };
    let with_palette = match mode {
        ScrMode::Classic(p) => p,
        ScrMode::HighColor(p) => p,
        ScrMode::HighRes(_, p) => p,
    };
    let palette = if with_palette {
        vstd::slice::slice_to_vec(vstd::slice::slice_subrange(b, len - PALETTE_SIZE as usize, len))
    } else {
        Vec::new()
    };
    proof {
        assert(b@.subrange(0, SCR_SIZE as int) =~= b@.take(SCR_SIZE as int));
        assert(b@.subrange(0, PIXELS_SIZE as int) =~= b@.take(PIXELS_SIZE as int));
        assert(b@.subrange(len - PALETTE_SIZE, len as int) =~= b@.skip(len - PALETTE_SIZE));
    }
    Some(ScrParts { mode, primary, secondary, palette })
}

/// Copies the bytes of `src` to the start of `dst`.
fn copy_into(dst: &mut [u8], src: &[u8])
    requires
        src@.len() <= old(dst)@.len(),
    ensures
        final(dst)@ == src@ + old(dst)@.skip(src@.len() as int),
{
    let mut i: usize = 0;
    while i < src.len()
        invariant
            i <= src@.len() <= dst@.len(),
            dst@.len() == old(dst)@.len(),
            dst@ == src@.take(i as int) + old(dst)@.skip(i as int),
        decreases src@.len() - i,
    {
        dst[i] = src[i];
        i = i + 1;
        proof {
            assert(dst@ =~= src@.take(i as int) + old(dst)@.skip(i as int));
        }
    }
    proof {
        assert(src@.take(i as int) =~= src@);
    }
}

/// Attempts to read the `SCR` file from the `src` and load it into `scr`: the file's bytes are
/// split by [scr_parts], the screen mode is set, and the parts are copied into the screens and
/// the palette.
///
/// # Errors
/// This function will return an error if a file is not recognized as an `SCR` file
/// (`InvalidData`) or the requested screen mode exceeds the capacity of the underlying
/// implementation (`InvalidInput`); `scr` is then left untouched. Other errors may also be
/// returned from attempts to read the file.
pub fn load_scr<T: ScreenDataProvider, R: std::io::Read + std::io::Seek>(scr: &mut T, src: R) -> (r: Result<(), std::io::Error>)
    ensures
        r is Ok ==> exists|b: Seq<u8>| #[trigger] spec_scr_parts(b) is Some,
{
    let mut src = src;
    let end = match seek_end(&mut src) {
        Ok(end) => end,
        Err(e) => return Err(e),
    };
    if scr_mode(end, 0).is_none() {
        return Err(new_io_error(IoErrorKind::InvalidData, "Screen format not recognized"));
    }
    match seek_start(&mut src, 0) {
        Ok(_) => {},
        Err(e) => return Err(e),
    }
    let mut bytes: Vec<u8> = Vec::new();
    let mut i: u64 = 0;
    while i < end
        invariant
            end <= SCR_HIRES_PLUS_SIZE,
            bytes@.len() == i <= end,
        decreases end - i,
    {
        bytes.push(0);
        i = i + 1;
    }
    match read_exact(&mut src, bytes.as_mut_slice()) {
        Ok(()) => {},
        Err(e) => return Err(e),
    }
    let parts = match scr_parts(bytes.as_slice()) {
        Some(parts) => parts,
        None => return Err(new_io_error(IoErrorKind::InvalidData, "Screen format not recognized")),
    };
    if !scr.set_screen_mode(parts.mode) {
        return Err(new_io_error(IoErrorKind::InvalidInput, "Screen format not supported"));
    }
    copy_into(scr.screen_primary_mut(), parts.primary.as_slice());
    if parts.secondary.len() > 0 {
        copy_into(scr.screen_secondary_mut(), parts.secondary.as_slice());
    }
    if parts.palette.len() > 0 {
        copy_into(scr.screen_palette_mut(), parts.palette.as_slice());
    }
    Ok(())
}

/// Returns the screen mode of a file of `size` bytes, its hi-res color byte being `color`.
pub fn scr_mode(size: u64, color: u8) -> (r: Option<ScrMode>)
    ensures r == spec_scr_mode(size, color),
{
    if size == SCR_SIZE {
        Some(ScrMode::Classic(false))
    } else if size == SCR_PLUS_SIZE {
        Some(ScrMode::Classic(true))
    } else if size == SCR_HICOLOR_SIZE {
        Some(ScrMode::HighColor(false))
    } else if size == SCR_HICOLOR_PLUS_SIZE {
        Some(ScrMode::HighColor(true))
    } else if size == SCR_HIRES_SIZE {
        Some(ScrMode::HighRes(color, false))
    } else if size == SCR_HIRES_PLUS_SIZE {
        Some(ScrMode::HighRes(color, true))
    } else {
        None
    }
}

/// Attempts to save the screen from `scr` and write it as the `SCR` file into the `dst`: the
/// bytes of [scr_bytes] for the screen mode, screens and palette of `scr`.
///
/// # Errors
/// This function may return an error from attempts to write the file.
pub fn save_scr<T: ScreenDataProvider, W: std::io::Write>(scr: &T, dst: W) -> (r: Result<(), std::io::Error>) {
    let mut dst = dst;
    let mode = scr.get_screen_mode();
    let no_palette: [u8; 64] = [0u8; 64];
    let primary = scr.screen_primary_ref();
    let secondary = match mode {
        ScrMode::Classic(_) => primary,
        _ => scr.screen_secondary_ref(),
    };
    let palette = match mode {
        ScrMode::Classic(true) | ScrMode::HighColor(true) | ScrMode::HighRes(_, true) => scr.screen_palette_ref(),
        _ => &no_palette,
    };
    let bytes = scr_bytes(mode, primary, secondary, palette);
    write_all(&mut dst, bytes.as_slice())
}

} // verus!
