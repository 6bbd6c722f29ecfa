use stilb::texture2d::Texture2D;

const R32G32B32A32_SFLOAT: i32 = 109;

#[test]
fn new_texture_keeps_size_and_format() {
    let t = Texture2D::new(2, 3, R32G32B32A32_SFLOAT, 11, 12, 13);
    assert_eq!(t.width(), 2);
    assert_eq!(t.height(), 3);
    assert_eq!(t.format(), R32G32B32A32_SFLOAT);
    assert_eq!(t.layout(), ash::vk::ImageLayout::UNDEFINED.as_raw());
    assert_eq!(t.layout(), 0);
    assert_eq!((t.image, t.memory, t.view), (11, 12, 13));
}

#[test]
fn destroy_hands_back_view_memory_image() {
    let mut t = Texture2D::new(2, 2, R32G32B32A32_SFLOAT, 11, 12, 13);
    assert_eq!(t.destroy(), Some((13, 12, 11)));
    assert_eq!((t.image, t.memory, t.view), (0, 0, 0));
    assert_eq!(t.width(), 2);
    assert_eq!(t.format(), R32G32B32A32_SFLOAT);
}

#[test]
fn destroy_twice_releases_once() {
    let mut t = Texture2D::new(4, 4, R32G32B32A32_SFLOAT, 1, 2, 3);
    assert!(t.destroy().is_some());
    assert_eq!(t.destroy(), None);
    assert_eq!((t.image, t.memory, t.view), (0, 0, 0));
}

#[test]
fn destroy_of_null_image_does_nothing() {
    let mut t = Texture2D::new(4, 4, R32G32B32A32_SFLOAT, 0, 2, 3);
    assert_eq!(t.destroy(), None);
    assert_eq!((t.image, t.memory, t.view), (0, 2, 3));
}

#[test]
fn set_pixels_changes_nothing() {
    let t = Texture2D::new(2, 2, R32G32B32A32_SFLOAT, 1, 2, 3);
    let pixels = [0u8; 64];
    t.set_pixels(&pixels);
    assert_eq!((t.width(), t.height(), t.layout()), (2, 2, 0));
}
