//! Filter matrices and their packing into uniform buffers.
//!
//! Entries are `f32` values carried as their IEEE-754 bit patterns: this module
//! only moves them, it never computes with them.

use vstd::prelude::*;

use crate::bytes::{is_packed_buffer, word_bytes, words_as_bytes};

verus! {

/// Bit pattern of the `f32` value 1.0.
pub const ONE_BITS: u32 = 0x3f80_0000;

/// Size in bytes of the uniform buffer of one channel's filter: three columns
/// of four words each.
pub const FILTER_BUFFER_SIZE: usize = 48;

/// A 3x3 filter matrix in column-major order; each entry is the bit pattern of
/// an `f32`.
#[derive(Debug, Clone, Copy, PartialEq, Eq)]
pub struct FilterMatrix {
    pub x_axis: [u32; 3],
    pub y_axis: [u32; 3],
    pub z_axis: [u32; 3],
}

/// The matrix whose columns are the consecutive triples of `a`.
pub open spec fn matrix_of(a: Seq<u32>) -> FilterMatrix {
    FilterMatrix {
        x_axis: [a[0], a[1], a[2]],
        y_axis: [a[3], a[4], a[5]],
        z_axis: [a[6], a[7], a[8]],
    }
}

/// The nine entries of `m`, column after column.
pub open spec fn entries_of(m: FilterMatrix) -> Seq<u32> {
    seq![
        m.x_axis@[0], m.x_axis@[1], m.x_axis@[2],
        m.y_axis@[0], m.y_axis@[1], m.y_axis@[2],
        m.z_axis@[0], m.z_axis@[1], m.z_axis@[2],
    ]
}

/// The uniform-buffer layout of `m`: three columns padded to four words, the
/// buffer's column `c` holding component `2 - c` of each of the matrix's columns.
pub open spec fn buffer_words(m: FilterMatrix) -> Seq<u32> {
    seq![
        m.x_axis@[2], m.y_axis@[2], m.z_axis@[2], 0u32,
        m.x_axis@[1], m.y_axis@[1], m.z_axis@[1], 0u32,
        m.x_axis@[0], m.y_axis@[0], m.z_axis@[0], 0u32,
    ]
}

/// The weight that the update kernel gives to the neighbour at offset `(i, j)`:
/// it reads the buffer as a `mat3x3f` and takes column `i + 1`, row `j + 1`.
pub open spec fn kernel_weight(buffer: Seq<u32>, i: int, j: int) -> u32 {
    buffer[4 * (i + 1) + (j + 1)]
}

impl FilterMatrix {
    /// The identity matrix.
    pub fn identity() -> (r: FilterMatrix)
        ensures
            entries_of(r) == seq![ONE_BITS, 0u32, 0u32, 0u32, ONE_BITS, 0u32, 0u32, 0u32, ONE_BITS],
    {
        FilterMatrix { x_axis: [ONE_BITS, 0, 0], y_axis: [0, ONE_BITS, 0], z_axis: [0, 0, ONE_BITS] }
    }
}

/// The matrix whose columns are the consecutive triples of `array`.
pub fn array_to_mat3(array: [u32; 9]) -> (r: FilterMatrix)
    ensures
        r == matrix_of(array@),
        entries_of(r) == array@,
{
    let r = FilterMatrix {
        x_axis: [array[0], array[1], array[2]],
        y_axis: [array[3], array[4], array[5]],
        z_axis: [array[6], array[7], array[8]],
    };
    assert(entries_of(r) =~= array@);
    r
}

/// The nine entries of `mat`, column after column.
pub fn mat3_to_array(mat: FilterMatrix) -> (r: [u32; 9])
    ensures
        r@ == entries_of(mat),
        matrix_of(r@) == mat,
{
    let r = [
        mat.x_axis[0], mat.x_axis[1], mat.x_axis[2],
        mat.y_axis[0], mat.y_axis[1], mat.y_axis[2],
        mat.z_axis[0], mat.z_axis[1], mat.z_axis[2],
    ];
    assert(r@ =~= entries_of(mat));
    assert(matrix_of(r@).x_axis =~= mat.x_axis);
    assert(matrix_of(r@).y_axis =~= mat.y_axis);
    assert(matrix_of(r@).z_axis =~= mat.z_axis);
    r
}

/// The twelve words of `mat` in uniform-buffer layout.
pub fn mat3_to_buffer_array(mat: FilterMatrix) -> (r: [u32; 12])
    ensures
        r@ == buffer_words(mat),
{
    let r = [
        mat.x_axis[2], mat.y_axis[2], mat.z_axis[2], 0,
        mat.x_axis[1], mat.y_axis[1], mat.z_axis[1], 0,
        mat.x_axis[0], mat.y_axis[0], mat.z_axis[0], 0,
    ];
    assert(r@ =~= buffer_words(mat));
    r
}

/// Row-order convention: packing a filter given as nine entries, column after
/// column, and reading it back as the update kernel does, the neighbour at
/// offset `(i, j)` gets entry `3 * (j + 1) + 1 - i`, and the padding words are zero.
pub proof fn lemma_kernel_reads_filter(a: Seq<u32>, i: int, j: int)
    requires
        a.len() == 9,
        -1 <= i <= 1,
        -1 <= j <= 1,
    ensures
        kernel_weight(buffer_words(matrix_of(a)), i, j) == a[3 * (j + 1) + 1 - i],
        buffer_words(matrix_of(a))[3] == 0,
        buffer_words(matrix_of(a))[7] == 0,
        buffer_words(matrix_of(a))[11] == 0,
{
}

/// The nine entries of the filter that keeps only the centre cell, with weight
/// `one`.
pub open spec fn center_only(one: u32) -> Seq<u32> {
    seq![0u32, 0u32, 0u32, 0u32, one, 0u32, 0u32, 0u32, 0u32]
}

/// A filter that is zero but for its centre entry is read by the update kernel
/// as weight `one` on the cell itself and zero on each of its eight neighbours.
pub proof fn lemma_center_filter_reads_center(one: u32, i: int, j: int)
    requires
        -1 <= i <= 1,
        -1 <= j <= 1,
    ensures
        kernel_weight(buffer_words(matrix_of(center_only(one))), i, j) == if i == 0 && j == 0 {
            one
        } else {
            0u32
        },
{
    lemma_kernel_reads_filter(center_only(one), i, j);
}

/// The byte contents of the uniform buffer of one channel's filter.
pub fn filter_uniform_bytes(mat: FilterMatrix) -> (r: Vec<u8>)
    ensures
        r@.len() == FILTER_BUFFER_SIZE,
        is_packed_buffer(r@, buffer_words(mat)),
        word_bytes(r@, 3) == seq![0u8, 0u8, 0u8, 0u8],
        word_bytes(r@, 7) == seq![0u8, 0u8, 0u8, 0u8],
        word_bytes(r@, 11) == seq![0u8, 0u8, 0u8, 0u8],
{
    let words = mat3_to_buffer_array(mat);
    words_as_bytes(&words)
}

/// The packed filters of the three channels, as written to the three uniform
/// buffers.
#[derive(Debug, Clone, Copy, PartialEq, Eq)]
pub struct NCAFilter {
    pub red: [u32; 12],
    pub green: [u32; 12],
    pub blue: [u32; 12],
}

impl NCAFilter {
    /// All three filters zero.
    pub fn empty() -> (r: NCAFilter)
        ensures
            forall|k: int| 0 <= k < 12 ==> r.red@[k] == 0 && r.green@[k] == 0 && r.blue@[k] == 0,
    {
        NCAFilter { red: [0; 12], green: [0; 12], blue: [0; 12] }
    }
}

} // verus!
