use nca_playground::filter::{
    array_to_mat3, filter_uniform_bytes, mat3_to_array, mat3_to_buffer_array, FilterMatrix,
    NCAFilter, FILTER_BUFFER_SIZE, ONE_BITS,
};

fn ne_bytes(words: &[u32]) -> Vec<u8> {
    words.iter().flat_map(|w| w.to_ne_bytes()).collect()
}

/// The weight the update kernel reads for offset (i, j): column i + 1, row j + 1.
fn kernel_weight(buffer: &[u32; 12], i: i32, j: i32) -> u32 {
    buffer[(4 * (i + 1) + (j + 1)) as usize]
}

#[test]
fn array_matrix_round_trip() {
    let a = [1, 2, 3, 4, 5, 6, 7, 8, 9];
    let m = array_to_mat3(a);
    assert_eq!(m.x_axis, [1, 2, 3]);
    assert_eq!(m.y_axis, [4, 5, 6]);
    assert_eq!(m.z_axis, [7, 8, 9]);
    assert_eq!(mat3_to_array(m), a);
}

#[test]
fn buffer_layout_reverses_components_and_pads() {
    let m = array_to_mat3([1, 2, 3, 4, 5, 6, 7, 8, 9]);
    assert_eq!(mat3_to_buffer_array(m), [3, 6, 9, 0, 2, 5, 8, 0, 1, 4, 7, 0]);
}

#[test]
fn kernel_reads_entry_by_offset() {
    let a = [10, 11, 12, 13, 14, 15, 16, 17, 18];
    let buffer = mat3_to_buffer_array(array_to_mat3(a));
    for i in -1..=1 {
        for j in -1..=1 {
            assert_eq!(kernel_weight(&buffer, i, j), a[(3 * (j + 1) + 1 - i) as usize]);
        }
    }
}

#[test]
fn center_filter_reads_only_the_cell_itself() {
    let one = 1.0f32.to_bits();
    let buffer = mat3_to_buffer_array(array_to_mat3([0, 0, 0, 0, one, 0, 0, 0, 0]));
    for i in -1..=1 {
        for j in -1..=1 {
            let expected = if i == 0 && j == 0 { one } else { 0 };
            assert_eq!(kernel_weight(&buffer, i, j), expected);
        }
    }
}

#[test]
fn identity_matrix_entries() {
    let m = FilterMatrix::identity();
    assert_eq!(ONE_BITS, 1.0f32.to_bits());
    assert_eq!(mat3_to_array(m), [ONE_BITS, 0, 0, 0, ONE_BITS, 0, 0, 0, ONE_BITS]);
}

#[test]
fn empty_filter_is_zero() {
    let f = NCAFilter::empty();
    assert_eq!(f.red, [0; 12]);
    assert_eq!(f.green, [0; 12]);
    assert_eq!(f.blue, [0; 12]);
}

#[test]
fn filter_bytes_are_the_packed_words() {
    let m = array_to_mat3([1, 2, 3, 4, 5, 6, 7, 8, 9]);
    let bytes = filter_uniform_bytes(m);
    assert_eq!(bytes.len(), FILTER_BUFFER_SIZE);
    assert_eq!(bytes, ne_bytes(&[3, 6, 9, 0, 2, 5, 8, 0, 1, 4, 7, 0]));
}
