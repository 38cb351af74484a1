//! The CSFD E(B-V) map: a full-sky RING-ordered vector of `CSFD_NPIX`
//! pixels at `CSFD_NSIDE`, and the checks that guard reading it.

use vstd::prelude::*;
use std::path::PathBuf;
use ndarray_npy::ViewNpyError;

use crate::geometry::n_pixels;

verus! {

/// HEALPix resolution of the CSFD map (RING ordering).
pub const CSFD_NSIDE: u32 = 4096;

/// Number of pixels of the CSFD map: `12 * CSFD_NSIDE^2`.
pub const CSFD_NPIX: usize = 12 * 4096 * 4096;

/// Why opening or reading the CSFD map failed.
#[derive(Debug)]
#[allow(inconsistent_fields)]
pub enum CsfdError {
    /// The file could not be opened.
    Open { path: PathBuf, source: std::io::Error },
    /// The file could not be memory-mapped.
    Mmap { path: PathBuf, source: std::io::Error },
    /// The file is no one-dimensional `.npy` array of `f32`.
    InvalidNpy { path: PathBuf, source: ViewNpyError },
    /// The map does not have `expected` pixels.
    WrongShape { actual: usize, expected: usize },
    /// The pixel lies past the end of the map.
    PixelOutOfRange(u64),
}

/// The map has one pixel per HEALPix pixel at `CSFD_NSIDE`.
pub proof fn lemma_csfd_npix_is_twelve_nside_squared()
    ensures
        CSFD_NPIX == n_pixels(CSFD_NSIDE as int),
{
}

/// Check the number of pixels of the map when it is opened: it must be
/// `CSFD_NPIX`.
pub fn check_csfd_len(len: usize) -> (checked: Result<(), CsfdError>)
    ensures
        len == CSFD_NPIX <==> checked is Ok,
        len != CSFD_NPIX ==> (checked matches Err(CsfdError::WrongShape { actual, expected })
            && actual == len && expected == CSFD_NPIX),
{
    if len != CSFD_NPIX {
        return Err(CsfdError::WrongShape { actual: len, expected: CSFD_NPIX });
    }
    Ok(())
}

/// The position in a map of `len` pixels at which RING pixel `pixel` (taken
/// as a `usize`) is stored, or `PixelOutOfRange(pixel)` past its end.
pub fn csfd_pixel_index(pixel: u64, len: usize) -> (index: Result<usize, CsfdError>)
    ensures
        (pixel as usize) < len <==> index is Ok,
        (pixel as usize) < len ==> index == Ok::<usize, CsfdError>(pixel as usize),
        (pixel as usize) >= len ==> (index matches Err(CsfdError::PixelOutOfRange(p)) && p == pixel),
{
    let position = pixel as usize;
    if position < len {
        Ok(position)
    } else {
        Err(CsfdError::PixelOutOfRange(pixel))
    }
}

} // verus!
