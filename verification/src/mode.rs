//! Argument blocks of the three dumb-buffer requests.

use vstd::prelude::*;

verus! {

/// Argument block of the "create dumb buffer" request. The caller fills in
/// `height`, `width`, `bpp` and `flags`; the kernel answers in `handle`,
/// `pitch` and `size`.
#[allow(non_camel_case_types)]
#[derive(Debug, Clone, Copy, PartialEq, Eq, Structural)]
pub struct drm_mode_create_dumb {
    pub height: u32,
    pub width: u32,
    pub bpp: u32,
    pub flags: u32,
    pub handle: u32,
    pub pitch: u32,
    pub size: u64,
}

/// Argument block of the "map dumb buffer" request. The caller fills in
/// `handle`; the kernel answers in `offset`.
#[allow(non_camel_case_types)]
#[derive(Debug, Clone, Copy, PartialEq, Eq, Structural)]
pub struct drm_mode_map_dumb {
    pub handle: u32,
    pub pad: u32,
    pub offset: u64,
}

/// Argument block of the "destroy dumb buffer" request.
#[allow(non_camel_case_types)]
#[derive(Debug, Clone, Copy, PartialEq, Eq, Structural)]
pub struct drm_mode_destroy_dumb {
    pub handle: u32,
}

/// Colour depth of every scan-out buffer, in bits per pixel.
pub const BITS_PER_PIXEL: u32 = 32;

impl drm_mode_create_dumb {
    /// The request for a `width` x `height` buffer at 32 bits per pixel, with
    /// every answer field cleared.
    pub fn request(width: u32, height: u32) -> (r: Self)
        ensures
            r == (drm_mode_create_dumb {
                height,
                width,
                bpp: 32,
                flags: 0,
                handle: 0,
                pitch: 0,
                size: 0,
            }),
    {
        drm_mode_create_dumb {
            height,
            width,
            bpp: BITS_PER_PIXEL,
            flags: 0,
            handle: 0,
            pitch: 0,
            size: 0,
        }
    }
}

impl drm_mode_map_dumb {
    /// The request for the mappable offset of buffer `handle`.
    pub fn request(handle: u32) -> (r: Self)
        ensures
            r == (drm_mode_map_dumb { handle, pad: 0, offset: 0 }),
    {
        drm_mode_map_dumb { handle, pad: 0, offset: 0 }
    }
}

impl drm_mode_destroy_dumb {
    /// The request to destroy buffer `handle`.
    pub fn request(handle: u32) -> (r: Self)
        ensures
            r == (drm_mode_destroy_dumb { handle }),
    {
        drm_mode_destroy_dumb { handle }
    }
}

} // verus!
