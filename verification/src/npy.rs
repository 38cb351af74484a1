//! Read-only views of one-dimensional `u32` `.npy` data, through
//! `ndarray` and `ndarray_npy`.

use vstd::prelude::*;
use ndarray::ArrayView1;
use ndarray_npy::{ViewNpyError, ViewNpyExt};

verus! {

#[verifier::external_type_specification]
#[verifier::external_body]
pub struct ExViewNpyError(ndarray_npy::ViewNpyError);

/// A zero-copy one-dimensional `u32` array view over `.npy` bytes
/// (`ndarray::ArrayView1<u32>`).
#[verifier::external_body]
pub struct U32Vector<'a> {
    view: ArrayView1<'a, u32>,
}

/// The elements of a `U32Vector`, in index order.
pub uninterp spec fn u32_vector_elements(vector: U32Vector<'_>) -> Seq<u32>;

/// The elements that a one-dimensional `u32` `.npy` file holds, or `None`
/// where the bytes are no such file.
pub uninterp spec fn npy_u32_elements(bytes: Seq<u8>) -> Option<Seq<u32>>;

/// The `.npy` magic string, `\x93NUMPY`, starts the bytes.
pub open spec fn has_npy_magic(bytes: Seq<u8>) -> bool {
    &&& bytes.len() >= 6
    &&& bytes[0] == 0x93u8
    &&& bytes[1] == 0x4eu8
    &&& bytes[2] == 0x55u8
    &&& bytes[3] == 0x4du8
    &&& bytes[4] == 0x50u8
    &&& bytes[5] == 0x59u8
}

/// Where the array data of a `.npy` file starts: after the magic string,
/// the version (`1.0`, `2.0` or `3.0`), the header length (a little-endian
/// `u16` for version 1, a `u32` otherwise) and the header itself. `None`
/// where the bytes do not get as far as the header length.
pub open spec fn npy_header_end(bytes: Seq<u8>) -> Option<int> {
    if has_npy_magic(bytes) && bytes.len() >= 8 && bytes[7] == 0 {
        if bytes[6] == 1 && bytes.len() >= 10 {
            Some(10 + bytes[8] + 0x100 * bytes[9])
        } else if (bytes[6] == 2 || bytes[6] == 3) && bytes.len() >= 12 {
            Some(12 + bytes[8] + 0x100 * bytes[9] + 0x1_0000 * bytes[10] + 0x100_0000 * bytes[11])
        } else {
            None
        }
    } else {
        None
    }
}

/// Some bytes follow the `.npy` header: the bytes are no file whose header
/// ends where the bytes end.
pub open spec fn npy_data_follows_header(bytes: Seq<u8>) -> bool {
    npy_header_end(bytes) != Some(bytes.len() as int)
}

/// Whether some bytes follow the `.npy` header (`npy_data_follows_header`).
pub fn data_follows_npy_header(bytes: &[u8]) -> (follows: bool)
    ensures
        follows == npy_data_follows_header(bytes@),
{
    let len = bytes.len();
    if len < 8 || bytes[0] != 0x93 || bytes[1] != 0x4e || bytes[2] != 0x55 || bytes[3] != 0x4d
        || bytes[4] != 0x50 || bytes[5] != 0x59 || bytes[7] != 0 {
        return true;
    }
    let end: u64 = if bytes[6] == 1 && len >= 10 {
        10 + bytes[8] as u64 + 0x100 * (bytes[9] as u64)
    } else if (bytes[6] == 2 || bytes[6] == 3) && len >= 12 {
        12 + bytes[8] as u64 + 0x100 * (bytes[9] as u64) + 0x1_0000 * (bytes[10] as u64)
            + 0x100_0000 * (bytes[11] as u64)
    } else {
        return true;
    };
    end != len as u64
}

/// `ArrayView1::<u32>::view_npy`: a zero-copy view of the array that the
/// `.npy` bytes hold. Where the bytes are no one-dimensional `u32` file it
/// fails; where it succeeds, the view holds the file's elements. It may
/// also fail where the data is misaligned in memory, which depends on the
/// buffer's address: no clause says when. It panics on a header that
/// declares no elements through a zero axis beside axes whose product
/// overflows `isize`; such a file has no bytes after its header, and the
/// `requires` leaves out every file with none.
#[verifier::external_body]
pub(crate) fn view_u32_npy(bytes: &[u8]) -> (vector: Result<U32Vector<'_>, ViewNpyError>)
    requires
        npy_data_follows_header(bytes@),
    ensures
        npy_u32_elements(bytes@) is None ==> vector is Err,
        vector matches Ok(v) ==> npy_u32_elements(bytes@) == Some(u32_vector_elements(v)),
{
    ArrayView1::<u32>::view_npy(bytes).map(|view| U32Vector { view })
}

/// `ArrayBase::len`: the number of elements of the view.
#[verifier::external_body]
pub(crate) fn u32_vector_len(vector: &U32Vector<'_>) -> (len: usize)
    ensures
        len == u32_vector_elements(*vector).len(),
{
    vector.view.len()
}

/// `ArrayBase::get`: the element at `index`, or `None` past the end.
#[verifier::external_body]
pub(crate) fn u32_vector_get(vector: &U32Vector<'_>, index: usize) -> (element: Option<u32>)
    ensures
        element == (if index < u32_vector_elements(*vector).len() {
            Some(u32_vector_elements(*vector)[index as int])
        } else {
            None::<u32>
        }),
{
    vector.view.get(index).copied()
}

/// `ArrayView1::<u32>::from` on an empty slice: a view with no elements.
#[verifier::external_body]
pub(crate) fn empty_u32_vector<'a>() -> (vector: U32Vector<'a>)
    ensures
        u32_vector_elements(vector) == Seq::<u32>::empty(),
{
    let empty: &'a [u32] = &[];
    U32Vector { view: ArrayView1::from(empty) }
}

} // verus!
