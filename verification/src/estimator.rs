//! Congestion estimate with hysteresis.
//!
//! Each evaluation turns three observations into an indicator, lets the
//! congestion level follow the indicator by at most one step, and switches
//! between the nominal and the degraded resolution only after the level has
//! stayed on one side long enough.

use vstd::prelude::*;
use crate::profile::DEGRADED_QUALITY;
use crate::profile::DEGRADED_WIDTH;
use crate::profile::NOMINAL_QUALITY;
use crate::profile::NOMINAL_WIDTH;
use crate::profile::QUALITY_FLOOR;

verus! {

/// Highest congestion level.
pub const MAX_LEVEL: u8 = 10;

/// The level falls only after more stable evaluations than this.
pub const FALL_STABILITY: u32 = 5;

/// Indicator and level further apart than this reset the stability counter.
pub const SWING: u8 = 2;

/// The resolution is reduced only above this level.
pub const DEGRADE_ABOVE: u8 = 6;

/// The resolution is restored only below this level.
pub const UPGRADE_BELOW: u8 = 3;

/// Milliseconds that must have passed since the last switch before the
/// resolution is reduced.
pub const DEGRADE_HOLD_MS: u64 = 2000;

/// Milliseconds that must have passed since the last switch before the
/// resolution is restored.
pub const UPGRADE_HOLD_MS: u64 = 15000;

/// The resolution is restored only after more stable evaluations than this.
pub const UPGRADE_STABILITY: u32 = 20;

/// What the estimator remembers between evaluations.
#[derive(Clone, Copy, Debug, PartialEq, Eq, Structural)]
pub struct NetworkState {
    /// The degraded resolution is in force.
    pub is_congested: bool,
    /// Congestion on a scale from 0 to `MAX_LEVEL`.
    pub congestion_level: u8,
    /// Evaluations in a row in which indicator and level stayed close.
    pub stability_counter: u32,
    /// Time of the last switch of resolution, in milliseconds.
    pub last_change_ms: u64,
}

/// Share of the queue in the indicator.
pub open spec fn queue_term(occupancy: u64) -> int {
    if occupancy > 20 {
        2
    } else if occupancy > 10 {
        1
    } else {
        0
    }
}

/// Share of failed sends in the indicator.
pub open spec fn failure_term(failures: u32) -> int {
    if failures > 3 {
        3
    } else if failures > 0 {
        1
    } else {
        0
    }
}

/// Share of the server's signal in the indicator.
pub open spec fn server_term(server_congested: bool) -> int {
    if server_congested {
        3
    } else {
        0
    }
}

/// The indicator: the sum of the three shares, from 0 to 8.
pub open spec fn indicator(occupancy: u64, failures: u32, server_congested: bool) -> int {
    queue_term(occupancy) + failure_term(failures) + server_term(server_congested)
}

/// The level after an evaluation: one step up where the indicator is above
/// the level, one step down where it is below and more than `FALL_STABILITY`
/// stable evaluations lie behind, else unchanged; never above `MAX_LEVEL`.
pub open spec fn next_level(level: int, indicator: int, stability: int) -> int {
    let moved = if indicator > level {
        level + 1
    } else if indicator < level && stability > FALL_STABILITY {
        level - 1
    } else {
        level
    };
    if moved > MAX_LEVEL {
        MAX_LEVEL as int
    } else if moved < 0 {
        0
    } else {
        moved
    }
}

/// The stability counter after an evaluation: zero where the indicator is
/// more than `SWING` away from the new level, else one more than before, as
/// far as the counter reaches.
pub open spec fn next_stability(stability: int, indicator: int, new_level: int) -> int {
    if indicator - new_level > SWING || new_level - indicator > SWING {
        0
    } else if stability < u32::MAX {
        stability + 1
    } else {
        stability
    }
}

/// Milliseconds from `earlier` to `now`, zero where `now` lies before.
pub open spec fn elapsed_ms(earlier: u64, now: u64) -> int {
    if now >= earlier {
        now - earlier
    } else {
        0
    }
}

/// The resolution is to be reduced at this evaluation.
pub open spec fn degrade_due(congested: bool, level: int, elapsed: int) -> bool {
    !congested && level > DEGRADE_ABOVE && elapsed >= DEGRADE_HOLD_MS
}

/// The resolution is to be restored at this evaluation.
pub open spec fn upgrade_due(congested: bool, level: int, elapsed: int, stability: int) -> bool {
    congested && level < UPGRADE_BELOW && elapsed >= UPGRADE_HOLD_MS && stability
        > UPGRADE_STABILITY
}

/// `quality` or the floor, whichever is higher.
pub open spec fn floored(quality: int) -> int {
    if quality < QUALITY_FLOOR {
        QUALITY_FLOOR as int
    } else {
        quality
    }
}

/// Quality of the degraded resolution at a level.
pub open spec fn degraded_quality(level: int) -> int {
    floored(DEGRADED_QUALITY - 2 * level)
}

/// Quality of the nominal resolution at a level.
pub open spec fn nominal_quality(level: int) -> int {
    floored(NOMINAL_QUALITY - 3 * level)
}

/// The state after an evaluation at time `now_ms`.
pub open spec fn evaluated(
    state: NetworkState,
    occupancy: u64,
    failures: u32,
    server_congested: bool,
    now_ms: u64,
) -> NetworkState {
    let ind = indicator(occupancy, failures, server_congested);
    let level = next_level(state.congestion_level as int, ind, state.stability_counter as int);
    let stability = next_stability(state.stability_counter as int, ind, level);
    let elapsed = elapsed_ms(state.last_change_ms, now_ms);
    let switched = degrade_due(state.is_congested, level, elapsed) || upgrade_due(
        state.is_congested,
        level,
        elapsed,
        stability,
    );
    NetworkState {
        is_congested: if switched {
            !state.is_congested
        } else {
            state.is_congested
        },
        congestion_level: level as u8,
        stability_counter: stability as u32,
        last_change_ms: if switched {
            now_ms
        } else {
            state.last_change_ms
        },
    }
}

/// The recommendation that goes with an evaluation from `before` to `after`:
/// whether the degraded resolution is in force, the width, and the quality.
/// A restored resolution starts at the nominal quality; in every other case
/// the quality follows the level.
pub open spec fn recommended(before: NetworkState, after: NetworkState) -> (bool, u32, u32) {
    if after.is_congested {
        (true, DEGRADED_WIDTH, degraded_quality(after.congestion_level as int) as u32)
    } else if before.is_congested {
        (false, NOMINAL_WIDTH, NOMINAL_QUALITY)
    } else {
        (false, NOMINAL_WIDTH, nominal_quality(after.congestion_level as int) as u32)
    }
}

/// The level moves with inertia: it never falls while the indicator is at or
/// above it, it falls only where the indicator is below it and more than
/// `FALL_STABILITY` stable evaluations lie behind, it moves by one step at
/// most, and it stays between 0 and `MAX_LEVEL`.
pub proof fn lemma_level_inertia(level: int, indicator: int, stability: int)
    requires
        0 <= level <= MAX_LEVEL,
    ensures
        indicator >= level ==> next_level(level, indicator, stability) >= level,
        next_level(level, indicator, stability) < level ==> indicator < level && stability
            > FALL_STABILITY,
        next_level(level, indicator, stability) > level ==> indicator > level,
        level - 1 <= next_level(level, indicator, stability) <= level + 1,
        0 <= next_level(level, indicator, stability) <= MAX_LEVEL,
{
}

/// The resolution is reduced at an evaluation exactly where the new level is
/// above `DEGRADE_ABOVE`, at least `DEGRADE_HOLD_MS` have passed since the
/// last switch, and the nominal resolution was in force.
pub proof fn lemma_degrade_exactly_when_due(
    state: NetworkState,
    occupancy: u64,
    failures: u32,
    server_congested: bool,
    now_ms: u64,
)
    ensures
        ({
            let after = evaluated(state, occupancy, failures, server_congested, now_ms);
            (!state.is_congested && after.is_congested) <==> (after.congestion_level
                > DEGRADE_ABOVE && elapsed_ms(state.last_change_ms, now_ms) >= DEGRADE_HOLD_MS
                && !state.is_congested)
        }),
{
}

/// The resolution is restored at an evaluation exactly where the new level
/// is below `UPGRADE_BELOW`, at least `UPGRADE_HOLD_MS` have passed since the
/// last switch, the new stability counter is above `UPGRADE_STABILITY`, and
/// the degraded resolution was in force.
pub proof fn lemma_upgrade_exactly_when_due(
    state: NetworkState,
    occupancy: u64,
    failures: u32,
    server_congested: bool,
    now_ms: u64,
)
    ensures
        ({
            let after = evaluated(state, occupancy, failures, server_congested, now_ms);
            (state.is_congested && !after.is_congested) <==> (after.congestion_level
                < UPGRADE_BELOW && elapsed_ms(state.last_change_ms, now_ms) >= UPGRADE_HOLD_MS
                && after.stability_counter > UPGRADE_STABILITY && state.is_congested)
        }),
{
}

/// The resolution does not flap: after a switch, no evaluation within
/// `DEGRADE_HOLD_MS` switches again, whatever it observes.
pub proof fn lemma_no_switch_within_hold(
    state: NetworkState,
    occupancy: u64,
    failures: u32,
    server_congested: bool,
    now_ms: u64,
    next_occupancy: u64,
    next_failures: u32,
    next_server_congested: bool,
    next_now_ms: u64,
)
    requires
        evaluated(state, occupancy, failures, server_congested, now_ms).is_congested
            != state.is_congested,
        elapsed_ms(now_ms, next_now_ms) < DEGRADE_HOLD_MS,
    ensures
        ({
            let switched = evaluated(state, occupancy, failures, server_congested, now_ms);
            evaluated(
                switched,
                next_occupancy,
                next_failures,
                next_server_congested,
                next_now_ms,
            ).is_congested == switched.is_congested
        }),
{
}

/// No recommended quality lies below the floor, and the time of the last
/// switch moves only at a switch.
pub proof fn lemma_recommendation_bounds(
    state: NetworkState,
    occupancy: u64,
    failures: u32,
    server_congested: bool,
    now_ms: u64,
)
    ensures
        ({
            let after = evaluated(state, occupancy, failures, server_congested, now_ms);
            &&& QUALITY_FLOOR <= recommended(state, after).2 <= NOMINAL_QUALITY
            &&& after.congestion_level <= MAX_LEVEL
            &&& after.is_congested == state.is_congested ==> after.last_change_ms
                == state.last_change_ms
            &&& after.is_congested != state.is_congested ==> after.last_change_ms == now_ms
        }),
{
}

/// The indicator of three observations.
pub fn indicator_score(occupancy: u64, failures: u32, server_congested: bool) -> (score: u8)
    ensures
        score == indicator(occupancy, failures, server_congested),
        score <= 8,
{
    let queue: u8 = if occupancy > 20 {
        2
    } else if occupancy > 10 {
        1
    } else {
        0
    };
    let failed: u8 = if failures > 3 {
        3
    } else if failures > 0 {
        1
    } else {
        0
    };
    let server: u8 = if server_congested {
        3
    } else {
        0
    };
    queue + failed + server
}

impl NetworkState {
    /// The level is within its scale.
    pub open spec fn wf(&self) -> bool {
        self.congestion_level <= MAX_LEVEL
    }

    /// The state of an idle network at the nominal resolution, with the last
    /// switch taken to be at `now_ms`.
    pub fn new(now_ms: u64) -> (state: NetworkState)
        ensures
            state == (NetworkState {
                is_congested: false,
                congestion_level: 0,
                stability_counter: 0,
                last_change_ms: now_ms,
            }),
            state.wf(),
    {
        NetworkState {
            is_congested: false,
            congestion_level: 0,
            stability_counter: 0,
            last_change_ms: now_ms,
        }
    }

    /// One evaluation at time `now_ms`: takes the three observations, moves
    /// level and stability counter, switches the resolution where that is
    /// due, and returns whether the degraded resolution is in force, the
    /// recommended width and the recommended quality.
    pub fn update_congestion(
        &mut self,
        queue_size: u64,
        consecutive_failures: u32,
        server_congestion: bool,
        now_ms: u64,
    ) -> (r: (bool, u32, u32))
        ensures
            *final(self) == evaluated(
                *old(self),
                queue_size,
                consecutive_failures,
                server_congestion,
                now_ms,
            ),
            r == recommended(*old(self), *final(self)),
            final(self).wf(),
    {
        let score: u8 = indicator_score(queue_size, consecutive_failures, server_congestion);
        let level: u8 = self.congestion_level;
        let moved: u8 = if score > level {
            level + 1
        } else if score < level && self.stability_counter > FALL_STABILITY {
            level - 1
        } else {
            level
        };
        let new_level: u8 = if moved > MAX_LEVEL {
            MAX_LEVEL
        } else {
            moved
        };
        let apart: bool = if score >= new_level {
            score - new_level > SWING
        } else {
            new_level - score > SWING
        };
        let new_stability: u32 = if apart {
            0
        } else if self.stability_counter < u32::MAX {
            self.stability_counter + 1
        } else {
            self.stability_counter
        };
        let elapsed: u64 = if now_ms >= self.last_change_ms {
            now_ms - self.last_change_ms
        } else {
            0
        };
        let was_congested: bool = self.is_congested;
        let reduce: bool = !was_congested && new_level > DEGRADE_ABOVE && elapsed
            >= DEGRADE_HOLD_MS;
        let restore: bool = was_congested && new_level < UPGRADE_BELOW && elapsed
            >= UPGRADE_HOLD_MS && new_stability > UPGRADE_STABILITY;
        self.congestion_level = new_level;
        self.stability_counter = new_stability;
        if reduce || restore {
            self.is_congested = !was_congested;
            self.last_change_ms = now_ms;
        }
        let step: u32 = new_level as u32;
        if self.is_congested {
            (true, DEGRADED_WIDTH, floor_quality(DEGRADED_QUALITY, 2 * step))
        } else if was_congested {
            (false, NOMINAL_WIDTH, NOMINAL_QUALITY)
        } else {
            (false, NOMINAL_WIDTH, floor_quality(NOMINAL_QUALITY, 3 * step))
        }
    }
}

/// `base` less `cut`, but not below the floor.
fn floor_quality(base: u32, cut: u32) -> (q: u32)
    ensures
        q == floored(base - cut),
{
    if cut >= base || base - cut < QUALITY_FLOOR {
        QUALITY_FLOOR
    } else {
        base - cut
    }
}

} // verus!
