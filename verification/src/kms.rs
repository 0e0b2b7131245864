//! Records the kernel returns about a device's display resources, held as
//! owned values.

use vstd::prelude::*;

verus! {

/// Capability identifier.
pub type Capability = u64;

/// The capability that says the device offers dumb buffers.
pub const CAP_DUMB_BUFFER: Capability = 1;

/// Length of a display mode's name, in bytes.
pub const DRM_DISPLAY_MODE_LEN: usize = 32;

/// Whether something is plugged into a connector.
#[derive(Debug, Clone, Copy, PartialEq, Eq, Structural)]
pub enum DrmModeConnection {
    Connected,
    Disconnected,
    UnknownConnection,
}

impl DrmModeConnection {
    /// The number the kernel uses for this status.
    pub open spec fn code(self) -> int {
        match self {
            DrmModeConnection::Connected => 1,
            DrmModeConnection::Disconnected => 2,
            DrmModeConnection::UnknownConnection => 3,
        }
    }

    /// The status for a kernel number; `None` for a number that names no
    /// status.
    pub fn from_raw(raw: u32) -> (r: Option<DrmModeConnection>)
        ensures
            (1 <= raw <= 3) <==> r.is_some(),
            r.is_some() ==> r.unwrap().code() == raw,
    {
        if raw == 1 {
            Some(DrmModeConnection::Connected)
        } else if raw == 2 {
            Some(DrmModeConnection::Disconnected)
        } else if raw == 3 {
            Some(DrmModeConnection::UnknownConnection)
        } else {
            None
        }
    }

    /// The kernel number of this status.
    pub fn raw(self) -> (r: u32)
        ensures
            r == self.code(),
    {
        match self {
            DrmModeConnection::Connected => 1,
            DrmModeConnection::Disconnected => 2,
            DrmModeConnection::UnknownConnection => 3,
        }
    }
}

/// Sub-pixel layout of a panel.
#[derive(Debug, Clone, Copy, PartialEq, Eq, Structural)]
pub enum DrmModeSubPixel {
    Unknown,
    HorizontalRGB,
    HorizontalBGR,
    VerticalRGB,
    VerticalBGR,
    NoSubPixel,
}

impl DrmModeSubPixel {
    /// The number the kernel uses for this layout.
    pub open spec fn code(self) -> int {
        match self {
            DrmModeSubPixel::Unknown => 1,
            DrmModeSubPixel::HorizontalRGB => 2,
            DrmModeSubPixel::HorizontalBGR => 3,
            DrmModeSubPixel::VerticalRGB => 4,
            DrmModeSubPixel::VerticalBGR => 5,
            DrmModeSubPixel::NoSubPixel => 6,
        }
    }

    /// The layout for a kernel number; `None` for a number that names no
    /// layout.
    pub fn from_raw(raw: u32) -> (r: Option<DrmModeSubPixel>)
        ensures
            (1 <= raw <= 6) <==> r.is_some(),
            r.is_some() ==> r.unwrap().code() == raw,
    {
        if raw == 1 {
            Some(DrmModeSubPixel::Unknown)
        } else if raw == 2 {
            Some(DrmModeSubPixel::HorizontalRGB)
        } else if raw == 3 {
            Some(DrmModeSubPixel::HorizontalBGR)
        } else if raw == 4 {
            Some(DrmModeSubPixel::VerticalRGB)
        } else if raw == 5 {
            Some(DrmModeSubPixel::VerticalBGR)
        } else if raw == 6 {
            Some(DrmModeSubPixel::NoSubPixel)
        } else {
            None
        }
    }
}

/// A display timing and resolution. An opaque blob to this library apart
/// from `hdisplay` and `vdisplay`, the visible size in pixels.
#[derive(Debug, Clone, Copy)]
pub struct DrmModeModeInfo {
    pub clock: u32,
    pub hdisplay: u16,
    pub hsync_start: u16,
    pub hsync_end: u16,
    pub htotal: u16,
    pub hskew: u16,
    pub vdisplay: u16,
    pub vsync_start: u16,
    pub vsync_end: u16,
    pub vtotal: u16,
    pub vscan: u16,
    pub vrefresh: u32,
    pub flags: u32,
    pub mode_type: u32,
    pub name: [i8; 32],
}

/// The hardware block between a controller and a connector.
#[derive(Debug, Clone, Copy, PartialEq, Eq, Structural)]
pub struct DrmModeEncoder {
    pub encoder_id: u32,
    pub encoder_type: u32,
    /// The controller this encoder is bound to; 0 when unbound.
    pub crtc_id: u32,
    pub possible_crtcs: u32,
    pub possible_clones: u32,
}

/// A controller's configuration at one moment.
#[derive(Debug, Clone, Copy)]
pub struct DrmModeCrtc {
    pub crtc_id: u32,
    pub buffer_id: u32,
    pub x: u32,
    pub y: u32,
    pub width: u32,
    pub height: u32,
    pub mode_valid: i32,
    pub mode: DrmModeModeInfo,
    pub gamma_size: i32,
}

/// The identifiers of everything the device offers, in the kernel's order.
#[derive(Debug)]
pub struct DrmModeRes {
    pub fbs: Vec<u32>,
    pub crtcs: Vec<u32>,
    pub connectors: Vec<u32>,
    pub encoders: Vec<u32>,
    pub min_width: u32,
    pub max_width: u32,
    pub min_height: u32,
    pub max_height: u32,
}

/// One display output port.
#[derive(Debug)]
pub struct DrmModeConnector {
    pub connector_id: u32,
    /// The encoder currently driving this connector; 0 when none.
    pub encoder_id: u32,
    pub connector_type: u32,
    pub connector_type_id: u32,
    pub connection: DrmModeConnection,
    pub mm_width: u32,
    pub mm_height: u32,
    pub subpixel: DrmModeSubPixel,
    /// Supported modes, the preferred one first.
    pub modes: Vec<DrmModeModeInfo>,
    pub props: Vec<u32>,
    pub prop_values: Vec<u64>,
    pub encoders: Vec<u32>,
}

} // verus!
