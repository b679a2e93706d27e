use vulkan_demo::staging::fill_staging;

#[test]
fn staging_gets_all_pixels() {
    let pixels: Vec<u8> = vec![255, 0, 0, 255, 0, 255, 0, 128];
    let mut staging = vec![0u8; 8];
    fill_staging(&mut staging, &pixels);
    assert_eq!(staging, pixels);
}

#[test]
fn staging_gets_leading_pixels() {
    let pixels: Vec<u8> = vec![1, 2, 3, 4, 5, 6];
    let mut staging = vec![9u8; 4];
    fill_staging(&mut staging, &pixels);
    assert_eq!(staging, vec![1, 2, 3, 4]);
}

#[test]
fn empty_staging() {
    let mut staging: Vec<u8> = Vec::new();
    fill_staging(&mut staging, &[7, 7]);
    assert!(staging.is_empty());
}
