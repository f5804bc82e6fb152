use jxl_convert::layout::{broadcast_gray, drop_alpha};

#[test]
fn gray_samples_are_repeated_three_times() {
    assert_eq!(broadcast_gray(&[10u8, 200]), vec![10, 10, 10, 200, 200, 200]);
    assert_eq!(broadcast_gray(&[7u16]), vec![7, 7, 7]);
    assert_eq!(broadcast_gray::<u8>(&[]), Vec::<u8>::new());
}

#[test]
fn fourth_sample_of_each_pixel_is_left_out() {
    assert_eq!(drop_alpha(&[1u8, 2, 3, 4, 5, 6, 7, 8]), vec![1, 2, 3, 5, 6, 7]);
    assert_eq!(drop_alpha(&[1u16, 2, 3, 65535]), vec![1, 2, 3]);
}

#[test]
fn samples_after_the_last_whole_pixel_are_left_out() {
    assert_eq!(drop_alpha(&[1u8, 2, 3, 4, 5, 6]), vec![1, 2, 3]);
    assert_eq!(drop_alpha(&[1u8, 2, 3]), Vec::<u8>::new());
}
