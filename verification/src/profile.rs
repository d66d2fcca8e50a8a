//! The parameters asked of the encoder.

use vstd::prelude::*;

verus! {

/// Width of the nominal resolution.
pub const NOMINAL_WIDTH: u32 = 1280;

/// Height of the nominal resolution.
pub const NOMINAL_HEIGHT: u32 = 720;

/// Quality of the nominal profile on an idle network.
pub const NOMINAL_QUALITY: u32 = 70;

/// Width of the degraded resolution.
pub const DEGRADED_WIDTH: u32 = 640;

/// Height of the degraded resolution.
pub const DEGRADED_HEIGHT: u32 = 480;

/// Quality of the degraded profile on an idle network.
pub const DEGRADED_QUALITY: u32 = 50;

/// No quality below this one is ever asked for.
pub const QUALITY_FLOOR: u32 = 20;

/// Two qualities further apart than this differ significantly.
pub const QUALITY_TOLERANCE: u32 = 5;

/// Width and height of a picture.
#[derive(Clone, Copy, Debug, PartialEq, Eq, Structural)]
pub struct Resolution {
    pub width: u32,
    pub height: u32,
}

/// The resolution of the nominal profile.
pub open spec fn nominal_resolution() -> Resolution {
    Resolution { width: NOMINAL_WIDTH, height: NOMINAL_HEIGHT }
}

/// The resolution of the degraded profile.
pub open spec fn degraded_resolution() -> Resolution {
    Resolution { width: DEGRADED_WIDTH, height: DEGRADED_HEIGHT }
}

/// Resolution and quality of the stream.
#[derive(Clone, Copy, Debug, PartialEq, Eq, Structural)]
pub struct StreamProfile {
    pub width: u32,
    pub height: u32,
    pub quality: u32,
}

/// The height that goes with a width: that of the nominal resolution for the
/// nominal width, that of the degraded resolution for any other.
pub open spec fn height_of(width: u32) -> u32 {
    if width == NOMINAL_WIDTH {
        NOMINAL_HEIGHT
    } else {
        DEGRADED_HEIGHT
    }
}

/// Distance between two qualities.
pub open spec fn quality_gap(a: u32, b: u32) -> int {
    if a >= b {
        a - b
    } else {
        b - a
    }
}

/// A change from `running` to `wanted` is worth a restart of the encoder:
/// the resolution differs, or the quality differs by more than
/// `QUALITY_TOLERANCE`.
pub open spec fn differs_significantly(wanted: StreamProfile, running: StreamProfile) -> bool {
    quality_gap(wanted.quality, running.quality) > QUALITY_TOLERANCE || wanted.width
        != running.width || wanted.height != running.height
}

impl StreamProfile {
    /// The profile the stream starts with: 1280×720 at quality 70.
    pub fn nominal() -> (p: StreamProfile)
        ensures
            p == (StreamProfile {
                width: NOMINAL_WIDTH,
                height: NOMINAL_HEIGHT,
                quality: NOMINAL_QUALITY,
            }),
    {
        StreamProfile { width: NOMINAL_WIDTH, height: NOMINAL_HEIGHT, quality: NOMINAL_QUALITY }
    }

    /// The profile of the given width and quality, with the height that goes
    /// with the width.
    pub fn of_width(width: u32, quality: u32) -> (p: StreamProfile)
        ensures
            p == (StreamProfile { width, height: height_of(width), quality }),
    {
        let height: u32 = if width == NOMINAL_WIDTH {
            NOMINAL_HEIGHT
        } else {
            DEGRADED_HEIGHT
        };
        StreamProfile { width, height, quality }
    }

    /// Whether a change from `running` to this profile is worth a restart of
    /// the encoder.
    pub fn differs_significantly_from(&self, running: &StreamProfile) -> (b: bool)
        ensures
            b == differs_significantly(*self, *running),
    {
        let gap: u32 = if self.quality >= running.quality {
            self.quality - running.quality
        } else {
            running.quality - self.quality
        };
        gap > QUALITY_TOLERANCE || self.width != running.width || self.height != running.height
    }
}

} // verus!
