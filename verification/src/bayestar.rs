//! The Bayestar19 best-fit map: the footprint lookup table, the shape
//! checks made when the map is opened, and the distance-modulus bin that a
//! query interpolates in.
//!
//! The lookup table is a `u32` `.npy` array indexed by NESTED pixel at
//! `BAYESTAR_NSIDE`; each entry is the row of the best-fit table that covers
//! the pixel, or `BAYESTAR_MISSING` outside the survey footprint. The
//! best-fit table has `BAYESTAR_N_DIST` columns, one per distance-modulus
//! bin edge; the edges are `4 + k/8` for `k` in `0..BAYESTAR_N_DIST`.

use vstd::prelude::*;
use std::path::PathBuf;
use ndarray_npy::ViewNpyError;

use crate::geometry::n_pixels;
use crate::npy::{
    data_follows_npy_header, empty_u32_vector, npy_data_follows_header, npy_u32_elements,
    u32_vector_elements, u32_vector_get, u32_vector_len, view_u32_npy, U32Vector,
};
use crate::paths::clone_path;

verus! {

/// HEALPix resolution of the lookup table (NESTED ordering).
pub const BAYESTAR_NSIDE: u32 = 1024;

/// Number of entries of the lookup table: `12 * BAYESTAR_NSIDE^2`.
pub const BAYESTAR_NPIX: usize = 12 * 1024 * 1024;

/// Number of distance-modulus bins, the columns of the best-fit table.
pub const BAYESTAR_N_DIST: usize = 120;

/// Lookup-table entry of a pixel outside the survey footprint.
pub const BAYESTAR_MISSING: u32 = 0xFFFF_FFFF;

/// The first distance-modulus bin edge, in eighths of a magnitude.
pub const DM_FIRST_EDGE_EIGHTHS: i64 = 32;

/// Why opening or querying the Bayestar map failed.
#[derive(Debug)]
#[allow(inconsistent_fields)]
pub enum BayestarError {
    /// The file could not be opened.
    Open { path: PathBuf, source: std::io::Error },
    /// The file could not be memory-mapped.
    Mmap { path: PathBuf, source: std::io::Error },
    /// The file is no `.npy` array of the expected element type and rank.
    InvalidNpy { path: PathBuf, source: ViewNpyError },
    /// The lookup table does not have `expected` entries.
    WrongLookupShape { actual: usize, expected: usize },
    /// The best-fit table does not have `expected_cols` columns.
    WrongBestfitShape { rows: usize, cols: usize, expected_cols: usize },
    /// The lookup table names a best-fit row that does not exist.
    RowOutOfRange { row: u32, rows: usize },
}

/// The lookup table has one entry per HEALPix pixel at `BAYESTAR_NSIDE`.
pub proof fn lemma_npix_is_twelve_nside_squared()
    ensures
        BAYESTAR_NPIX == n_pixels(BAYESTAR_NSIDE as int),
{
}

/// The entries that the lookup-table bytes are read as: the elements of the
/// `.npy` file where some bytes follow its header, and none where no byte
/// does. (A well-formed file with no data bytes holds no elements; a
/// malformed one is read as empty too, rather than reported.)
pub open spec fn lookup_elements(bytes: Seq<u8>) -> Option<Seq<u32>> {
    if npy_data_follows_header(bytes) {
        npy_u32_elements(bytes)
    } else {
        Some(Seq::empty())
    }
}

/// View the lookup-table bytes as a `u32` vector, reporting a malformed
/// file against `path`.
pub fn lookup_view<'a>(bytes: &'a [u8], path: &PathBuf) -> (view: Result<U32Vector<'a>, BayestarError>)
    ensures
        lookup_elements(bytes@) is None ==> view is Err,
        !npy_data_follows_header(bytes@) ==> view is Ok,
        match view {
            Ok(v) => lookup_elements(bytes@) == Some(u32_vector_elements(v)),
            Err(BayestarError::InvalidNpy { path: p, .. }) => p == *path,
            Err(_) => false,
        },
{
    if !data_follows_npy_header(bytes) {
        return Ok(empty_u32_vector());
    }
    match view_u32_npy(bytes) {
        Ok(v) => Ok(v),
        Err(source) => Err(BayestarError::InvalidNpy { path: clone_path(path), source }),
    }
}

/// Check a parsed lookup table: it must have `BAYESTAR_NPIX` entries.
pub fn check_lookup_vector(vector: &U32Vector<'_>) -> (checked: Result<(), BayestarError>)
    ensures
        checked is Ok <==> u32_vector_elements(*vector).len() == BAYESTAR_NPIX,
        checked is Err ==> (checked matches Err(BayestarError::WrongLookupShape { actual, expected })
            && actual == u32_vector_elements(*vector).len() && expected == BAYESTAR_NPIX),
{
    let len = u32_vector_len(vector);
    if len != BAYESTAR_NPIX {
        return Err(BayestarError::WrongLookupShape { actual: len, expected: BAYESTAR_NPIX });
    }
    Ok(())
}

/// Check the lookup table read from `path` when the map is opened: it must
/// be a `u32` `.npy` vector of `BAYESTAR_NPIX` entries. Where the view of
/// the bytes succeeds, the answer is `check_lookup_vector`'s.
pub fn check_lookup_table(bytes: &[u8], path: &PathBuf) -> (checked: Result<(), BayestarError>)
    ensures
        lookup_elements(bytes@) is None ==> checked is Err,
        match checked {
            Ok(()) => lookup_elements(bytes@) matches Some(t) && t.len() == BAYESTAR_NPIX,
            Err(BayestarError::WrongLookupShape { actual, expected }) => {
                &&& lookup_elements(bytes@) matches Some(t)
                &&& actual == t.len()
                &&& actual != BAYESTAR_NPIX
                &&& expected == BAYESTAR_NPIX
            },
            Err(BayestarError::InvalidNpy { path: p, .. }) => p == *path,
            Err(_) => false,
        },
{
    let view = lookup_view(bytes, path)?;
    check_lookup_vector(&view)
}

/// Check the best-fit table's shape, `(rows, cols)`, when the map is
/// opened: it must have `BAYESTAR_N_DIST` columns. Gives the number of rows.
pub fn check_bestfit_shape(rows: usize, cols: usize) -> (n_rows: Result<usize, BayestarError>)
    ensures
        n_rows == bestfit_shape_outcome(rows, cols),
        cols == BAYESTAR_N_DIST <==> n_rows is Ok,
        cols == BAYESTAR_N_DIST ==> n_rows == Ok::<usize, BayestarError>(rows),
        cols != BAYESTAR_N_DIST ==> (n_rows matches Err(BayestarError::WrongBestfitShape {
            rows: r,
            cols: c,
            expected_cols: e,
        }) && r == rows && c == cols && e == BAYESTAR_N_DIST),
{
    if cols != BAYESTAR_N_DIST {
        return Err(BayestarError::WrongBestfitShape { rows, cols, expected_cols: BAYESTAR_N_DIST });
    }
    Ok(rows)
}

/// The spec of `check_bestfit_shape`: the row count where the table has
/// `BAYESTAR_N_DIST` columns, else the shape error.
pub open spec fn bestfit_shape_outcome(rows: usize, cols: usize) -> Result<usize, BayestarError> {
    if cols == BAYESTAR_N_DIST {
        Ok(rows)
    } else {
        Err(BayestarError::WrongBestfitShape { rows, cols, expected_cols: BAYESTAR_N_DIST })
    }
}

/// What opening reports from the best-fit table once the lookup table has
/// passed: the error of viewing the best-fit file, or the outcome of its
/// shape check.
pub open spec fn bestfit_outcome(bestfit_shape: Result<(usize, usize), BayestarError>) -> Result<usize, BayestarError> {
    match bestfit_shape {
        Ok((rows, cols)) => bestfit_shape_outcome(rows, cols),
        Err(error) => Err(error),
    }
}

/// The checks made when the map is opened, in their order: the lookup
/// table first (malformed, then of the wrong length), then the best-fit
/// table, given as the result of viewing it (its `(rows, cols)` or the
/// error of viewing it), and its column count. Gives the number of
/// best-fit rows.
pub fn check_map_shapes(
    lookup_bytes: &[u8],
    lookup_path: &PathBuf,
    bestfit_shape: Result<(usize, usize), BayestarError>,
) -> (n_rows: Result<usize, BayestarError>)
    ensures
        lookup_elements(lookup_bytes@) is None ==> (n_rows matches Err(BayestarError::InvalidNpy { path: p, .. })
            && p == *lookup_path),
        ({
            ||| (n_rows matches Err(BayestarError::InvalidNpy { path: p, .. }) && p == *lookup_path)
            ||| (lookup_elements(lookup_bytes@) matches Some(t) && t.len() != BAYESTAR_NPIX
                && n_rows == Err::<usize, BayestarError>(BayestarError::WrongLookupShape {
                    actual: t.len() as usize,
                    expected: BAYESTAR_NPIX,
                }))
            ||| (lookup_elements(lookup_bytes@) matches Some(t) && t.len() == BAYESTAR_NPIX
                && n_rows == bestfit_outcome(bestfit_shape))
        }),
        match bestfit_shape {
            Ok((rows, cols)) => (lookup_elements(lookup_bytes@) matches Some(t) && t.len() == BAYESTAR_NPIX
                && cols == BAYESTAR_N_DIST) ==> ({
                ||| n_rows == Ok::<usize, BayestarError>(rows)
                ||| (n_rows matches Err(BayestarError::InvalidNpy { path: p, .. }) && p == *lookup_path)
            }),
            Err(_) => true,
        },
        match n_rows {
            Ok(reported) => {
                &&& lookup_elements(lookup_bytes@) matches Some(t) && t.len() == BAYESTAR_NPIX
                &&& bestfit_shape == Ok::<(usize, usize), BayestarError>((reported, BAYESTAR_N_DIST))
            },
            Err(_) => true,
        },
{
    let view = lookup_view(lookup_bytes, lookup_path)?;
    check_map_shapes_of(&view, bestfit_shape)
}

/// `check_map_shapes` for a lookup table that has been viewed.
pub fn check_map_shapes_of(
    lookup: &U32Vector<'_>,
    bestfit_shape: Result<(usize, usize), BayestarError>,
) -> (n_rows: Result<usize, BayestarError>)
    ensures
        u32_vector_elements(*lookup).len() != BAYESTAR_NPIX ==> (n_rows matches Err(
            BayestarError::WrongLookupShape { actual, expected },
        ) && actual == u32_vector_elements(*lookup).len() && expected == BAYESTAR_NPIX),
        u32_vector_elements(*lookup).len() == BAYESTAR_NPIX ==> n_rows == bestfit_outcome(bestfit_shape),
        u32_vector_elements(*lookup).len() == BAYESTAR_NPIX ==> match bestfit_shape {
            Ok((rows, cols)) => {
                &&& cols == BAYESTAR_N_DIST ==> n_rows == Ok::<usize, BayestarError>(rows)
                &&& cols != BAYESTAR_N_DIST ==> n_rows is Err
            },
            Err(error) => n_rows == Err::<usize, BayestarError>(error),
        },
        match n_rows {
            Ok(reported) => {
                &&& u32_vector_elements(*lookup).len() == BAYESTAR_NPIX
                &&& bestfit_shape == Ok::<(usize, usize), BayestarError>((reported, BAYESTAR_N_DIST))
            },
            Err(_) => true,
        },
{
    check_lookup_vector(lookup)?;
    match bestfit_shape {
        Ok((rows, cols)) => check_bestfit_shape(rows, cols),
        Err(error) => Err(error),
    }
}

/// The lookup-table entry of NESTED pixel `pixel` (taken as a `usize`): the
/// table's entry where the table has one, else `BAYESTAR_MISSING`.
pub open spec fn lookup_entry(table: Seq<u32>, pixel: u64) -> u32 {
    let index = pixel as usize;
    if (index as int) < table.len() {
        table[index as int]
    } else {
        BAYESTAR_MISSING
    }
}

/// The best-fit row that a parsed lookup table gives NESTED pixel `pixel`:
/// `None` outside the survey footprint (the missing marker, or a pixel past
/// the table), the entry where it names one of the `n_rows` best-fit rows,
/// and `RowOutOfRange` where it names none.
pub fn footprint_row_in(vector: &U32Vector<'_>, pixel: u64, n_rows: usize) -> (row: Result<Option<u32>, BayestarError>)
    ensures
        ({
            let e = lookup_entry(u32_vector_elements(*vector), pixel);
            &&& e == BAYESTAR_MISSING ==> row == Ok::<Option<u32>, BayestarError>(None)
            &&& e != BAYESTAR_MISSING && e < n_rows ==> row == Ok::<Option<u32>, BayestarError>(Some(e))
            &&& e != BAYESTAR_MISSING && e >= n_rows ==> (row matches Err(
                BayestarError::RowOutOfRange { row: r, rows },
            ) && r == e && rows == n_rows)
        }),
{
    let entry = match u32_vector_get(vector, pixel as usize) {
        Some(entry) => entry,
        None => BAYESTAR_MISSING,
    };
    if entry == BAYESTAR_MISSING {
        return Ok(None);
    }
    if entry as usize >= n_rows {
        return Err(BayestarError::RowOutOfRange { row: entry, rows: n_rows });
    }
    Ok(Some(entry))
}

/// The best-fit row that covers NESTED pixel `pixel`, or `None` outside the
/// survey footprint. `n_rows` is the number of rows of the best-fit table;
/// an entry that names no such row is an error, so a row handed back can
/// always be read. Where the view of the bytes succeeds, the answer is
/// `footprint_row_in`'s.
pub fn footprint_row(
    lookup_bytes: &[u8],
    lookup_path: &PathBuf,
    pixel: u64,
    n_rows: usize,
) -> (row: Result<Option<u32>, BayestarError>)
    ensures
        lookup_elements(lookup_bytes@) is None ==> row is Err,
        match row {
            Ok(found) => lookup_elements(lookup_bytes@) matches Some(t) && {
                let entry = lookup_entry(t, pixel);
                &&& entry == BAYESTAR_MISSING ==> found is None
                &&& entry != BAYESTAR_MISSING ==> found == Some(entry) && entry < n_rows
            },
            Err(BayestarError::RowOutOfRange { row: r, rows }) => {
                &&& lookup_elements(lookup_bytes@) matches Some(t)
                &&& r == lookup_entry(t, pixel)
                &&& r != BAYESTAR_MISSING
                &&& r >= n_rows
                &&& rows == n_rows
            },
            Err(BayestarError::InvalidNpy { path: p, .. }) => p == *lookup_path,
            Err(_) => false,
        },
{
    let view = lookup_view(lookup_bytes, lookup_path)?;
    footprint_row_in(&view, pixel, n_rows)
}

/// The `k`-th distance-modulus bin edge, in eighths of a magnitude.
pub open spec fn dm_edge_eighths(k: int) -> int {
    DM_FIRST_EDGE_EIGHTHS + k
}

/// The number of bin edges below a distance modulus whose `ceil(8 * dm)`
/// is `dm_ceil_eighths`: the edges lie on the grid of eighths from
/// `DM_FIRST_EDGE_EIGHTHS`, so the count is that ceiling's distance past the
/// first edge, clamped to `0..=BAYESTAR_N_DIST`.
pub open spec fn dm_edges_below(dm_ceil_eighths: int) -> int {
    let past_first = dm_ceil_eighths - DM_FIRST_EDGE_EIGHTHS;
    if past_first <= 0 {
        0
    } else if past_first >= BAYESTAR_N_DIST {
        BAYESTAR_N_DIST as int
    } else {
        past_first
    }
}

/// Where a distance modulus falls among the bin edges, as
/// `numpy.searchsorted(edges, dm, side="left")` places it: the index of the
/// first edge that is not below it, or `BAYESTAR_N_DIST` where every edge
/// is below it.
///
/// The edges lie on a grid of eighths, so an edge lies below `dm` exactly
/// when its number of eighths lies below `ceil(8 * dm)`; the caller passes
/// that ceiling as `dm_ceil_eighths`, saturated into an `i64`.
pub fn dm_bin_ceil(dm_ceil_eighths: i64) -> (ceil: usize)
    ensures
        ceil <= BAYESTAR_N_DIST,
        ceil == dm_edges_below(dm_ceil_eighths as int),
        forall|k: int| 0 <= k < ceil ==> dm_edge_eighths(k) < dm_ceil_eighths,
        forall|k: int| ceil <= k < BAYESTAR_N_DIST ==> dm_edge_eighths(k) >= dm_ceil_eighths,
{
    let mut lo: usize = 0;
    let mut hi: usize = BAYESTAR_N_DIST;
    while lo < hi
        invariant
            lo <= hi <= BAYESTAR_N_DIST,
            forall|k: int| 0 <= k < lo ==> dm_edge_eighths(k) < dm_ceil_eighths,
            forall|k: int| hi <= k < BAYESTAR_N_DIST ==> dm_edge_eighths(k) >= dm_ceil_eighths,
        decreases hi - lo,
    {
        let mid = lo + (hi - lo) / 2;
        if DM_FIRST_EDGE_EIGHTHS + (mid as i64) < dm_ceil_eighths {
            lo = mid + 1;
        } else {
            hi = mid;
        }
    }
    assert(lo > 0 ==> dm_edge_eighths(lo - 1) < dm_ceil_eighths);
    assert(lo < BAYESTAR_N_DIST ==> dm_edge_eighths(lo as int) >= dm_ceil_eighths);
    lo
}

/// Which best-fit values a distance modulus is read from.
#[derive(Debug, Clone, Copy, PartialEq, Eq, Structural)]
pub enum DmBracket {
    /// Before the first edge: the first value, scaled by
    /// `10^(0.2 * (dm - first edge))`.
    BeforeFirst,
    /// Between the edges `lower` and `upper = lower + 1`: the linear
    /// interpolation of their values.
    Between { lower: usize, upper: usize },
    /// Past the last edge: the last value.
    PastLast,
}

/// The spec of `dm_bracket`: the bracket that the searchsorted index `ceil`
/// selects.
pub open spec fn bracket_of_ceil(ceil: int) -> DmBracket {
    if ceil <= 0 {
        DmBracket::BeforeFirst
    } else if ceil >= BAYESTAR_N_DIST {
        DmBracket::PastLast
    } else {
        DmBracket::Between { lower: (ceil - 1) as usize, upper: ceil as usize }
    }
}

/// The bracket of best-fit values for a distance modulus whose
/// `ceil(8 * dm)` is `dm_ceil_eighths`: from the searchsorted index
/// `ceil`, `0` reads before the first edge, `BAYESTAR_N_DIST` past the last,
/// and any other between the edges `ceil - 1` and `ceil`.
pub fn dm_bracket(dm_ceil_eighths: i64) -> (bracket: DmBracket)
    ensures
        bracket == bracket_of_ceil(dm_edges_below(dm_ceil_eighths as int)),
        bracket matches DmBracket::Between { lower, upper } ==> upper == lower + 1 && upper < BAYESTAR_N_DIST,
{
    let ceil = dm_bin_ceil(dm_ceil_eighths);
    let bracket = if ceil == 0 {
        DmBracket::BeforeFirst
    } else if ceil == BAYESTAR_N_DIST {
        DmBracket::PastLast
    } else {
        DmBracket::Between { lower: ceil - 1, upper: ceil }
    };
    bracket
}

/// A distance modulus that lies exactly on bin edge `k` is placed at `k`:
/// the edge itself is the ceiling (`side="left"`), so it reads between
/// edges `k - 1` and `k`, or before the first edge where `k` is 0.
pub proof fn lemma_edge_is_its_own_ceil(k: int)
    requires
        0 <= k < BAYESTAR_N_DIST,
    ensures
        dm_edges_below(dm_edge_eighths(k)) == k,
        k == 0 ==> bracket_of_ceil(dm_edges_below(dm_edge_eighths(k))) == DmBracket::BeforeFirst,
        k > 0 ==> bracket_of_ceil(dm_edges_below(dm_edge_eighths(k)))
            == (DmBracket::Between { lower: (k - 1) as usize, upper: k as usize }),
{
}

/// A farther distance modulus never falls before a nearer one.
pub proof fn lemma_dm_edges_below_monotonic(near: int, far: int)
    requires
        near <= far,
    ensures
        dm_edges_below(near) <= dm_edges_below(far),
{
}

/// The bracket of a distance modulus encloses it: it reads before the first
/// edge exactly when it is at or below the first edge, past the last exactly
/// when it is above the last edge, and otherwise between two adjacent edges
/// with the lower below it and the upper at or above it.
pub proof fn lemma_bracket_encloses_dm(dm_ceil_eighths: int)
    ensures
        bracket_of_ceil(dm_edges_below(dm_ceil_eighths)) == DmBracket::BeforeFirst
            <==> dm_ceil_eighths <= dm_edge_eighths(0),
        bracket_of_ceil(dm_edges_below(dm_ceil_eighths)) == DmBracket::PastLast
            <==> dm_ceil_eighths > dm_edge_eighths(BAYESTAR_N_DIST - 1),
        bracket_of_ceil(dm_edges_below(dm_ceil_eighths)) matches DmBracket::Between { lower, upper }
            ==> {
            &&& upper == lower + 1
            &&& upper < BAYESTAR_N_DIST
            &&& dm_edge_eighths(lower as int) < dm_ceil_eighths <= dm_edge_eighths(upper as int)
        },
{
}

/// A lookup table that passed `check_lookup_table` has an entry of its own
/// for every pixel at `BAYESTAR_NSIDE`: none of them reads as missing for
/// want of an entry.
pub proof fn lemma_checked_table_covers_every_pixel(table: Seq<u32>, pixel: u64)
    requires
        table.len() == BAYESTAR_NPIX,
        pixel < BAYESTAR_NPIX,
    ensures
        lookup_entry(table, pixel) == table[pixel as int],
{
}

/// Opening reports the best-fit table's own row count, whatever it is,
/// once the table has `BAYESTAR_N_DIST` columns; any other column count is
/// reported as a shape error carrying the shape, and a failed view of the
/// best-fit file is reported as it came.
pub proof fn lemma_open_reports_bestfit_rows(rows: usize, cols: usize, error: BayestarError)
    ensures
        bestfit_outcome(Ok((rows, BAYESTAR_N_DIST))) == Ok::<usize, BayestarError>(rows),
        cols != BAYESTAR_N_DIST ==> bestfit_outcome(Ok((rows, cols))) == Err::<usize, BayestarError>(
            BayestarError::WrongBestfitShape { rows, cols, expected_cols: BAYESTAR_N_DIST },
        ),
        bestfit_outcome(Err(error)) == Err::<usize, BayestarError>(error),
{
}

} // verus!
