//! The scalars that the tasks of the pipeline share.
//!
//! Every value is an atomic of its own, read and written with relaxed
//! ordering: the tasks signal each other approximately and never hold a
//! lock. What another task does to a value between two calls is not known to
//! the caller, so these functions promise nothing about the values they
//! read; the decisions taken on those values have contracts of their own.

use vstd::prelude::*;
use std::sync::atomic::AtomicBool;
use std::sync::atomic::AtomicU32;
use std::sync::atomic::AtomicU64;
use std::sync::atomic::Ordering;
use crate::profile::StreamProfile;

verus! {

/// One reading of the shared scalars.
#[derive(Clone, Copy, Debug, PartialEq, Eq, Structural)]
pub struct Telemetry {
    /// Frames taken to be in the queue.
    pub occupancy: u64,
    /// The network is taken to be congested.
    pub congested: bool,
    /// Profile published for the stream.
    pub profile: StreamProfile,
}

/// The shared scalars themselves.
pub struct SharedTelemetry {
    occupancy: AtomicU64,
    congested: AtomicBool,
    quality: AtomicU32,
    width: AtomicU32,
    height: AtomicU32,
}

impl SharedTelemetry {
    /// Scalars of an empty queue and an uncongested network, with `profile`
    /// published.
    pub fn new(profile: StreamProfile) -> (shared: SharedTelemetry) {
        SharedTelemetry {
            occupancy: AtomicU64::new(0),
            congested: AtomicBool::new(false),
            quality: AtomicU32::new(profile.quality),
            width: AtomicU32::new(profile.width),
            height: AtomicU32::new(profile.height),
        }
    }

    /// Reads the occupancy counter.
    pub fn occupancy(&self) -> (n: u64) {
        self.occupancy.load(Ordering::Relaxed)
    }

    /// Counts one frame into the queue.
    pub fn frame_enqueued(&self) {
        self.occupancy.fetch_add(1, Ordering::Relaxed);
    }

    /// Counts one frame out of the queue.
    pub fn frame_dequeued(&self) {
        self.occupancy.fetch_sub(1, Ordering::Relaxed);
    }

    /// Reads the congestion flag.
    pub fn congested(&self) -> (b: bool) {
        self.congested.load(Ordering::Relaxed)
    }

    /// Writes the congestion flag.
    pub fn set_congested(&self, congested: bool) {
        self.congested.store(congested, Ordering::Relaxed);
    }

    /// Writes the published quality.
    pub fn set_quality(&self, quality: u32) {
        self.quality.store(quality, Ordering::Relaxed);
    }

    /// Writes the published resolution.
    pub fn set_resolution(&self, width: u32, height: u32) {
        self.width.store(width, Ordering::Relaxed);
        self.height.store(height, Ordering::Relaxed);
    }

    /// Publishes a profile: quality and resolution.
    pub fn publish(&self, profile: StreamProfile) {
        self.set_quality(profile.quality);
        self.set_resolution(profile.width, profile.height);
    }

    /// Reads the published profile.
    pub fn profile(&self) -> (p: StreamProfile) {
        StreamProfile {
            width: self.width.load(Ordering::Relaxed),
            height: self.height.load(Ordering::Relaxed),
            quality: self.quality.load(Ordering::Relaxed),
        }
    }

    /// Counts one frame out of the queue, then reads all scalars: what the
    /// sender does on taking a frame.
    pub fn take_frame(&self) -> (t: Telemetry) {
        self.frame_dequeued();
        self.read()
    }

    /// Reads all scalars, one after the other.
    pub fn read(&self) -> (t: Telemetry) {
        Telemetry {
            occupancy: self.occupancy(),
            congested: self.congested(),
            profile: self.profile(),
        }
    }
}

} // verus!
