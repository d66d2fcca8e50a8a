//! The control loop's step.
//!
//! Once per interval the controller reads the queue's counter and the
//! congestion flag, keeps counters of its own, asks the estimator, and
//! restarts the encoder where the recommendation differs significantly from
//! the running profile.

use vstd::prelude::*;
use crate::clock::MonotonicClock;
use crate::estimator::evaluated;
use crate::estimator::recommended;
use crate::estimator::NetworkState;
use crate::profile::differs_significantly;
use crate::profile::height_of;
use crate::profile::StreamProfile;
use crate::telemetry::SharedTelemetry;

verus! {

/// A counter above this value counts as a failed interval.
pub const OVERLOAD_ABOVE: u64 = 15;

/// The failure counter goes no higher.
pub const FAILURE_CAP: u32 = 10;

/// The success counter goes no higher.
pub const SUCCESS_CAP: u32 = 30;

/// With more stable evaluations than this the loop slows down.
pub const SETTLED_ABOVE: u32 = 15;

/// Milliseconds between evaluations of a settled network.
pub const SETTLED_INTERVAL_MS: u64 = 5000;

/// Milliseconds between evaluations otherwise.
pub const UNSETTLED_INTERVAL_MS: u64 = 2000;

/// What the control loop remembers between evaluations.
#[derive(Clone, Copy, Debug, PartialEq, Eq, Structural)]
pub struct Controller {
    /// The profile the encoder runs with.
    pub running: StreamProfile,
    /// The estimator's state.
    pub network: NetworkState,
    /// Failed intervals, less the good ones since.
    pub failures: u32,
    /// Good intervals in a row.
    pub successes: u32,
}

/// What the loop is to do after an evaluation.
#[derive(Clone, Copy, Debug, PartialEq, Eq, Structural)]
pub struct Decision {
    /// The congestion flag to publish.
    pub congested: bool,
    /// The profile to publish and restart the encoder with, if any.
    pub restart: Option<StreamProfile>,
    /// Milliseconds to sleep before the next evaluation.
    pub interval_ms: u64,
}

/// One evaluation with the readings it was made on.
#[derive(Clone, Copy, Debug, PartialEq, Eq, Structural)]
pub struct Tick {
    pub occupancy: u64,
    pub server_congested: bool,
    pub now_ms: u64,
    pub decision: Decision,
}

/// An interval counts as failed.
pub open spec fn overloaded(occupancy: u64, server_congested: bool) -> bool {
    server_congested || occupancy > OVERLOAD_ABOVE
}

/// The failure counter after an interval: one more after a failed one, up
/// to the cap; one less after a good one, down to zero.
pub open spec fn next_failures(failures: u32, failed: bool) -> u32 {
    if failed {
        if failures >= FAILURE_CAP {
            FAILURE_CAP
        } else {
            (failures + 1) as u32
        }
    } else if failures > 0 {
        (failures - 1) as u32
    } else {
        0
    }
}

/// The success counter after an interval: zero after a failed one; one more
/// after a good one, up to the cap.
pub open spec fn next_successes(successes: u32, failed: bool) -> u32 {
    if failed {
        0
    } else if successes >= SUCCESS_CAP {
        SUCCESS_CAP
    } else {
        (successes + 1) as u32
    }
}

/// The profile of a recommendation: its width and quality, and the height
/// that goes with the width.
pub open spec fn profile_of(recommendation: (bool, u32, u32)) -> StreamProfile {
    StreamProfile {
        width: recommendation.1,
        height: height_of(recommendation.1),
        quality: recommendation.2,
    }
}

/// Milliseconds to the next evaluation.
pub open spec fn interval_for(stability: u32) -> u64 {
    if stability > SETTLED_ABOVE {
        SETTLED_INTERVAL_MS
    } else {
        UNSETTLED_INTERVAL_MS
    }
}

/// The controller after an evaluation on these readings.
pub open spec fn stepped(
    controller: Controller,
    occupancy: u64,
    server_congested: bool,
    now_ms: u64,
) -> Controller {
    let failed = overloaded(occupancy, server_congested);
    let failures = next_failures(controller.failures, failed);
    let network = evaluated(controller.network, occupancy, failures, server_congested, now_ms);
    let wanted = profile_of(recommended(controller.network, network));
    Controller {
        running: if differs_significantly(wanted, controller.running) {
            wanted
        } else {
            controller.running
        },
        network,
        failures,
        successes: next_successes(controller.successes, failed),
    }
}

/// What the loop is to do after that evaluation.
pub open spec fn decided(
    controller: Controller,
    occupancy: u64,
    server_congested: bool,
    now_ms: u64,
) -> Decision {
    let after = stepped(controller, occupancy, server_congested, now_ms);
    let wanted = profile_of(recommended(controller.network, after.network));
    Decision {
        congested: after.network.is_congested,
        restart: if differs_significantly(wanted, controller.running) {
            Some(wanted)
        } else {
            None
        },
        interval_ms: interval_for(after.network.stability_counter),
    }
}

/// The encoder is restarted exactly where the running profile changes, and
/// then with the profile that runs from there on.
pub proof fn lemma_restart_follows_profile(
    controller: Controller,
    occupancy: u64,
    server_congested: bool,
    now_ms: u64,
)
    ensures
        ({
            let after = stepped(controller, occupancy, server_congested, now_ms);
            let decision = decided(controller, occupancy, server_congested, now_ms);
            &&& decision.restart.is_some() <==> after.running != controller.running
            &&& decision.restart.is_some() ==> decision.restart == Some(after.running)
            &&& decision.restart.is_some() ==> differs_significantly(
                after.running,
                controller.running,
            )
        }),
{
}

impl Controller {
    /// A controller for an encoder that runs with `running`, on a network
    /// taken to be idle, with the last switch of resolution taken to be at
    /// `now_ms`.
    pub fn new(running: StreamProfile, now_ms: u64) -> (controller: Controller)
        ensures
            controller == (Controller {
                running,
                network: NetworkState {
                    is_congested: false,
                    congestion_level: 0,
                    stability_counter: 0,
                    last_change_ms: now_ms,
                },
                failures: 0,
                successes: 0,
            }),
    {
        Controller { running, network: NetworkState::new(now_ms), failures: 0, successes: 0 }
    }

    /// One evaluation on the given readings: moves the counters and the
    /// estimator, takes over a recommendation that differs significantly
    /// from the running profile, and says what the loop is to do.
    pub fn evaluate(&mut self, occupancy: u64, server_congested: bool, now_ms: u64) -> (decision:
        Decision)
        ensures
            *final(self) == stepped(*old(self), occupancy, server_congested, now_ms),
            decision == decided(*old(self), occupancy, server_congested, now_ms),
    {
        let failed: bool = server_congested || occupancy > OVERLOAD_ABOVE;
        if failed {
            self.failures = if self.failures >= FAILURE_CAP {
                FAILURE_CAP
            } else {
                self.failures + 1
            };
            self.successes = 0;
        } else {
            self.successes = if self.successes >= SUCCESS_CAP {
                SUCCESS_CAP
            } else {
                self.successes + 1
            };
            if self.failures > 0 {
                self.failures = self.failures - 1;
            }
        }
        let (congested, width, quality) = self.network.update_congestion(
            occupancy,
            self.failures,
            server_congested,
            now_ms,
        );
        let wanted = StreamProfile::of_width(width, quality);
        let restart: Option<StreamProfile> = if wanted.differs_significantly_from(&self.running) {
            self.running = wanted;
            Some(wanted)
        } else {
            None
        };
        let interval_ms: u64 = if self.network.stability_counter > SETTLED_ABOVE {
            SETTLED_INTERVAL_MS
        } else {
            UNSETTLED_INTERVAL_MS
        };
        Decision { congested, restart, interval_ms }
    }

    /// One evaluation on what the shared scalars and the clock read now. The
    /// congestion flag is published, and with a restart the new profile.
    ///
    /// The report holds the readings; controller and decision are those of
    /// `evaluate` on them.
    pub fn tick(&mut self, telemetry: &SharedTelemetry, clock: &MonotonicClock) -> (tick: Tick)
        ensures
            *final(self) == stepped(
                *old(self),
                tick.occupancy,
                tick.server_congested,
                tick.now_ms,
            ),
            tick.decision == decided(
                *old(self),
                tick.occupancy,
                tick.server_congested,
                tick.now_ms,
            ),
    {
        let occupancy: u64 = telemetry.occupancy();
        let server_congested: bool = telemetry.congested();
        let now_ms: u64 = clock.now_ms();
        let decision = self.evaluate(occupancy, server_congested, now_ms);
        telemetry.set_congested(decision.congested);
        match decision.restart {
            Some(profile) => {
                telemetry.publish(profile);
            },
            None => {},
        }
        Tick { occupancy, server_congested, now_ms, decision }
    }
}

} // verus!
