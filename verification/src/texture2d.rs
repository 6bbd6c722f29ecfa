//! Bookkeeping of a 2D texture on the GPU: its size, format and layout, and
//! the image, memory and view handles that back it.

use vstd::prelude::*;

use crate::handles::{image_is_null, layout_undefined, null_image, null_image_view, null_memory};

verus! {

/// The raw value of `VK_IMAGE_LAYOUT_UNDEFINED`, the layout of a new image.
pub open spec fn undefined_layout() -> i32 {
    0
}

/// A 2D texture. `format` and `layout` are raw Vulkan enum values; `image`,
/// `memory` and `view` are raw Vulkan handles, zero when released.
pub struct Texture2D {
    format: i32,
    width: u32,
    height: u32,
    layout: i32,
    pub image: u64,
    pub memory: u64,
    pub view: u64,
}

impl Texture2D {
    /// The texture's pixel format.
    pub closed spec fn spec_format(self) -> i32 {
        self.format
    }

    /// The texture's width in pixels.
    pub closed spec fn spec_width(self) -> u32 {
        self.width
    }

    /// The texture's height in pixels.
    pub closed spec fn spec_height(self) -> u32 {
        self.height
    }

    /// The image handle.
    pub closed spec fn spec_image(self) -> u64 {
        self.image
    }

    /// The memory handle.
    pub closed spec fn spec_memory(self) -> u64 {
        self.memory
    }

    /// The image view handle.
    pub closed spec fn spec_view(self) -> u64 {
        self.view
    }

    /// The image layout the texture is in.
    pub closed spec fn spec_layout(self) -> i32 {
        self.layout
    }

    /// A texture of `width` by `height` pixels in `format`, backed by the freshly
    /// created `image`, bound `memory` and `view`. A new image is in the undefined
    /// layout.
    pub fn new(width: u32, height: u32, format: i32, image: u64, memory: u64, view: u64) -> (t: Self)
        ensures
            t.spec_width() == width,
            t.spec_height() == height,
            t.spec_format() == format,
            t.spec_layout() == undefined_layout(),
            t.spec_image() == image,
            t.spec_memory() == memory,
            t.spec_view() == view,
    {
        let layout = layout_undefined();
        Texture2D { format, width, height, layout, image, memory, view }
    }

    /// Marks the texture released. Returns the `(view, memory, image)` handles
    /// that the caller has to destroy, in that order, or `None` when the texture
    /// was released before (its image is null); then nothing changes.
    pub fn destroy(&mut self) -> (released: Option<(u64, u64, u64)>)
        ensures
            release_step(*old(self), *final(self), released),
            old(self).spec_image() == 0 ==> released is None && *final(self) == *old(self),
            old(self).spec_image() != 0 ==> released == Some((old(self).spec_view(), old(self).spec_memory(), old(self).spec_image())),
            old(self).spec_image() != 0 ==> final(self).spec_image() == 0 && final(self).spec_memory() == 0 && final(self).spec_view() == 0,
            final(self).spec_width() == old(self).spec_width(),
            final(self).spec_height() == old(self).spec_height(),
            final(self).spec_format() == old(self).spec_format(),
            final(self).spec_layout() == old(self).spec_layout(),
    {
        if image_is_null(self.image) {
            return None;
        }
        let released = (self.view, self.memory, self.image);

        self.view = null_image_view();
        self.memory = null_memory();
        self.image = null_image();

        Some(released)
    }

    /// Uploading pixels is not done yet: only the size of the upload is worked
    /// out, in 32-bit arithmetic, and nothing changes.
    pub fn set_pixels(&self, pixels: &[u8])
        requires
            self.spec_width() * self.spec_height() <= u32::MAX,
            self.spec_width() * self.spec_height() * (pixels@.len() as u32) * 8 <= u32::MAX,
    {
        let _size: u64 = (self.width * self.height * pixels.len() as u32 * 8) as u64;
    }

    /// The image layout the texture is in.
    pub fn layout(&self) -> (r: i32)
        ensures
            r == self.spec_layout(),
    {
        self.layout
    }

    /// The texture's height in pixels.
    pub fn height(&self) -> (r: u32)
        ensures
            r == self.spec_height(),
    {
        self.height
    }

    /// The texture's width in pixels.
    pub fn width(&self) -> (r: u32)
        ensures
            r == self.spec_width(),
    {
        self.width
    }

    /// The texture's pixel format.
    pub fn format(&self) -> (r: i32)
        ensures
            r == self.spec_format(),
    {
        self.format
    }
}

/// What [`Texture2D::destroy`] does to `before`, leaving `after` and handing
/// back `released`: nothing when the image is already null; otherwise it hands
/// back the view, memory and image handles, nulls them, and keeps size, format
/// and layout.
pub open spec fn release_step(before: Texture2D, after: Texture2D, released: Option<(u64, u64, u64)>) -> bool {
    if before.spec_image() == 0 {
        released is None && after == before
    } else {
        &&& released == Some((before.spec_view(), before.spec_memory(), before.spec_image()))
        &&& after.spec_view() == 0
        &&& after.spec_memory() == 0
        &&& after.spec_image() == 0
        &&& after.spec_width() == before.spec_width()
        &&& after.spec_height() == before.spec_height()
        &&& after.spec_format() == before.spec_format()
        &&& after.spec_layout() == before.spec_layout()
    }
}

/// Releasing a texture twice releases its handles once: the second call finds
/// the image null, hands back nothing and changes nothing.
pub proof fn lemma_destroy_twice_releases_once(
    t0: Texture2D,
    t1: Texture2D,
    t2: Texture2D,
    first: Option<(u64, u64, u64)>,
    second: Option<(u64, u64, u64)>,
)
    requires
        release_step(t0, t1, first),
        release_step(t1, t2, second),
    ensures
        second is None,
        t2 == t1,
{
}

/// A released texture holds no handle: after [`Texture2D::destroy`] of a texture
/// with a live image, its image, memory and view are all null.
pub proof fn lemma_destroy_nulls_handles(t0: Texture2D, t1: Texture2D, released: Option<(u64, u64, u64)>)
    requires
        release_step(t0, t1, released),
        t0.spec_image() != 0,
    ensures
        t1.spec_image() == 0 && t1.spec_memory() == 0 && t1.spec_view() == 0,
        released == Some((t0.spec_view(), t0.spec_memory(), t0.spec_image())),
{
}

} // verus!
