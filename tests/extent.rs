use vulkan_demo::extent::{fractal_workgroups, rgba8_len, RGBA8_PIXEL_BYTES, WORKGROUP_SIDE};

#[test]
fn rgba8_len_of_demo_image() {
    assert_eq!(rgba8_len(512, 512), Some(1_048_576));
}

#[test]
fn rgba8_len_of_rectangle() {
    assert_eq!(rgba8_len(3, 2), Some(24));
    assert_eq!(rgba8_len(1, 1), Some(RGBA8_PIXEL_BYTES));
}

#[test]
fn rgba8_len_of_empty_image() {
    assert_eq!(rgba8_len(0, 512), Some(0));
    assert_eq!(rgba8_len(u32::MAX, 0), Some(0));
}

#[test]
fn rgba8_len_largest_that_fits() {
    assert_eq!(rgba8_len(32768, 32767), Some(4_294_836_224));
    assert_eq!(rgba8_len(1, 1_073_741_823), Some(4_294_967_292));
}

#[test]
fn rgba8_len_too_large() {
    assert_eq!(rgba8_len(32768, 32768), None);
    assert_eq!(rgba8_len(1, 1_073_741_824), None);
    assert_eq!(rgba8_len(u32::MAX, u32::MAX), None);
    assert_eq!(rgba8_len(u32::MAX, 1), None);
}

#[test]
fn workgroups_of_demo_image() {
    assert_eq!(fractal_workgroups(512), [64, 64, 1]);
}

#[test]
fn workgroups_round_down() {
    assert_eq!(WORKGROUP_SIDE, 8);
    assert_eq!(fractal_workgroups(7), [0, 0, 1]);
    assert_eq!(fractal_workgroups(17), [2, 2, 1]);
    assert_eq!(fractal_workgroups(0), [0, 0, 1]);
    assert_eq!(fractal_workgroups(u32::MAX), [536_870_911, 536_870_911, 1]);
}
