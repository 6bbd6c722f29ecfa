use stilb::config::{StilbConfig, WINDOW_SIZE};

#[test]
fn preview_requests_a_window() {
    let config = StilbConfig::new(1, 256, 128);
    let v = config.vulkan_config(false);
    assert!(v.enable_window);
    assert!(!v.enable_validation_layers);
    assert_eq!(v.width, 512);
    assert_eq!(v.height, 512);
}

#[test]
fn no_preview_means_no_window() {
    let config = StilbConfig::new(0, 512, 512);
    let v = config.vulkan_config(true);
    assert!(!v.enable_window);
    assert!(v.enable_validation_layers);
    assert_eq!(v.width, WINDOW_SIZE);
    assert_eq!(v.height, WINDOW_SIZE);
}

#[test]
fn any_nonzero_preview_flag_counts() {
    let v = StilbConfig::new(255, 1, 1).vulkan_config(false);
    assert!(v.enable_window);
}
