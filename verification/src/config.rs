//! Start-up configuration: what the host application asks for, and the Vulkan
//! set-up that follows from it.

use vstd::prelude::*;

verus! {

/// Width and height, in pixels, of the window the baker opens.
pub const WINDOW_SIZE: u32 = 512;

/// What the host application asks for at start-up. `is_preview` is a C boolean:
/// zero means no preview window.
pub struct StilbConfig {
    is_preview: u8,
    preview_width: u32,
    preview_height: u32,
}

/// How Vulkan is to be set up.
pub struct VulkanConfig {
    pub enable_validation_layers: bool,
    pub enable_window: bool,
    pub width: u32,
    pub height: u32,
}

impl StilbConfig {
    /// The C boolean asking for a preview window.
    pub closed spec fn spec_is_preview(self) -> u8 {
        self.is_preview
    }

    /// The preview width the host application asked for.
    pub closed spec fn spec_preview_width(self) -> u32 {
        self.preview_width
    }

    /// The preview height the host application asked for.
    pub closed spec fn spec_preview_height(self) -> u32 {
        self.preview_height
    }

    /// A configuration as the host application fills it in.
    pub fn new(is_preview: u8, preview_width: u32, preview_height: u32) -> (c: Self)
        ensures
            c.spec_is_preview() == is_preview,
            c.spec_preview_width() == preview_width,
            c.spec_preview_height() == preview_height,
    {
        StilbConfig { is_preview, preview_width, preview_height }
    }

    /// The Vulkan set-up for this configuration: validation layers exactly in
    /// debug builds (`is_debug`), a window exactly when a preview is asked for,
    /// and a fixed window size of [`WINDOW_SIZE`] by [`WINDOW_SIZE`] pixels,
    /// whatever preview size was asked for.
    pub fn vulkan_config(&self, is_debug: bool) -> (v: VulkanConfig)
        ensures
            v.enable_validation_layers == is_debug,
            v.enable_window == (self.spec_is_preview() != 0),
            v.width == WINDOW_SIZE,
            v.height == WINDOW_SIZE,
    {
        VulkanConfig {
            enable_validation_layers: is_debug,
            enable_window: self.is_preview != 0,
            width: WINDOW_SIZE,
            height: WINDOW_SIZE,
        }
    }
}

} // verus!
