use vulkan_demo::queue::pick_graphics_family;

#[test]
fn picks_first_graphics_family() {
    assert_eq!(pick_graphics_family(&[false, true, true]), Some(1));
    assert_eq!(pick_graphics_family(&[true, false]), Some(0));
    assert_eq!(pick_graphics_family(&[false, false, false, true]), Some(3));
}

#[test]
fn no_graphics_family() {
    assert_eq!(pick_graphics_family(&[]), None);
    assert_eq!(pick_graphics_family(&[false, false]), None);
}
