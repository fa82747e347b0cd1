use pksm_transport::utils::slice_compare;

#[test]
fn equal_slices_compare_equal() {
    assert!(slice_compare(&[1, 2, 3], &[1, 2, 3]));
}

#[test]
fn empty_slice_is_equal_to_anything() {
    assert!(slice_compare(&[], &[]));
    assert!(slice_compare(&[], &[1, 2, 3]));
}

#[test]
fn only_the_length_of_the_first_slice_is_compared() {
    assert!(slice_compare(&[3, 0], &[3, 0, 0, 0]));
    assert!(slice_compare(&[3, 0], &[3, 0, 9, 9]));
}

#[test]
fn a_difference_at_any_index_is_found() {
    assert!(!slice_compare(&[9, 2, 3], &[1, 2, 3]));
    assert!(!slice_compare(&[1, 9, 3], &[1, 2, 3]));
    assert!(!slice_compare(&[1, 2, 9], &[1, 2, 3]));
    assert!(!slice_compare(&[1, 2, 9], &[1, 2, 3, 9]));
}

#[test]
fn a_difference_before_the_end_of_a_shorter_second_slice_is_found() {
    assert!(!slice_compare(&[1, 2, 3], &[1, 9]));
    assert!(!slice_compare(&[1, 2, 3], &[9]));
}
