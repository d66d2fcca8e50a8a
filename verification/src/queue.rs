//! The bounded queue between the extractor and the sender, and the rule by
//! which a frame is admitted to it.
//!
//! The queue is a bounded channel for `QUEUE_CAPACITY` frames. Beside it runs
//! a counter of the frames taken to be queued; the producer counts up on a
//! successful enqueue and the consumer counts down on a dequeue, and the two
//! need not agree with the channel at every moment. A frame is offered to
//! the channel only while the counter is below `HIGH_WATER`, and nothing ever
//! waits for room.

use vstd::prelude::*;
use tokio::sync::mpsc::Receiver;
use tokio::sync::mpsc::Sender;
use crate::extractor::retained;
use crate::extractor::scan;
use crate::extractor::FrameExtractor;
use crate::telemetry::SharedTelemetry;

verus! {

/// Frames that the channel holds at most.
pub const QUEUE_CAPACITY: usize = 60;

/// Counter value from which frames are dropped without being offered.
pub const HIGH_WATER: u64 = 50;

/// What the channel answered to an enqueue that did not wait.
#[derive(Clone, Copy, Debug, PartialEq, Eq, Structural)]
pub enum Enqueue {
    /// The frame is in the channel.
    Queued,
    /// The channel held as many frames as it can.
    Full,
    /// The receiving half is gone.
    Closed,
}

/// What became of a frame.
#[derive(Clone, Copy, Debug, PartialEq, Eq, Structural)]
pub enum Admission {
    /// Enqueued and counted.
    Queued,
    /// Dropped unoffered: the counter stood at or above `HIGH_WATER`.
    DroppedHighWater,
    /// Offered and dropped: the channel was full.
    DroppedFull,
    /// Offered and dropped: the channel was closed.
    DroppedClosed,
}

/// One frame's way through admission: the counter as it was read, and what
/// became of the frame.
#[derive(Clone, Copy, Debug, PartialEq, Eq, Structural)]
pub struct Offer {
    pub occupancy: u64,
    pub admission: Admission,
}

/// How many frames of one chunk went which way.
#[derive(Clone, Copy, Debug, PartialEq, Eq, Structural)]
pub struct PumpReport {
    pub queued: usize,
    pub dropped_high_water: usize,
    pub dropped_full: usize,
    pub dropped_closed: usize,
}

/// At this counter value a frame is offered to the channel.
pub open spec fn admits(occupancy: u64) -> bool {
    occupancy < HIGH_WATER
}

/// What becomes of a frame at counter value `occupancy` where the channel,
/// if it is asked, answers `enqueue`.
pub open spec fn admission(occupancy: u64, enqueue: Enqueue) -> Admission {
    if !admits(occupancy) {
        Admission::DroppedHighWater
    } else {
        match enqueue {
            Enqueue::Queued => Admission::Queued,
            Enqueue::Full => Admission::DroppedFull,
            Enqueue::Closed => Admission::DroppedClosed,
        }
    }
}

/// The counter after the producer has dealt with one frame.
pub open spec fn occupancy_after(occupancy: u64, admission: Admission) -> int {
    if admission == Admission::Queued {
        occupancy + 1
    } else {
        occupancy as int
    }
}

/// At `HIGH_WATER` and above every frame is dropped and the counter stays;
/// so the producer alone never takes the counter past `HIGH_WATER`, whatever
/// the channel answers.
pub proof fn lemma_admission_respects_high_water(occupancy: u64, enqueue: Enqueue)
    ensures
        occupancy >= HIGH_WATER ==> admission(occupancy, enqueue) == Admission::DroppedHighWater,
        occupancy >= HIGH_WATER ==> occupancy_after(occupancy, admission(occupancy, enqueue))
            == occupancy,
        occupancy <= HIGH_WATER ==> occupancy_after(occupancy, admission(occupancy, enqueue))
            <= HIGH_WATER,
        admission(occupancy, enqueue) == Admission::Queued <==> occupancy < HIGH_WATER && enqueue
            == Enqueue::Queued,
{
}

/// The counter after the producer has dealt with one frame for each of the
/// channel's answers in turn, while no consumer counts down.
pub open spec fn occupancy_after_run(occupancy: u64, answers: Seq<Enqueue>) -> int
    decreases answers.len(),
{
    if answers.len() == 0 {
        occupancy as int
    } else {
        let before = occupancy_after_run(occupancy, answers.drop_last());
        if 0 <= before <= u64::MAX {
            occupancy_after(before as u64, admission(before as u64, answers.last()))
        } else {
            before
        }
    }
}

/// However many frames the producer deals with and whatever the channel
/// answers, the counter never falls and never passes `HIGH_WATER` by the
/// producer's doing.
pub proof fn lemma_run_respects_high_water(occupancy: u64, answers: Seq<Enqueue>)
    requires
        occupancy <= HIGH_WATER,
    ensures
        occupancy <= occupancy_after_run(occupancy, answers) <= HIGH_WATER,
    decreases answers.len(),
{
    if answers.len() > 0 {
        lemma_run_respects_high_water(occupancy, answers.drop_last());
    }
}

/// Whether a frame is offered to the channel at this counter value.
pub fn below_high_water(occupancy: u64) -> (b: bool)
    ensures
        b == admits(occupancy),
{
    occupancy < HIGH_WATER
}

/// What became of a frame that was offered at counter value `occupancy` and
/// got the answer `enqueue`, or was not offered because the counter forbade
/// it.
pub fn settle(occupancy: u64, enqueue: Enqueue) -> (a: Admission)
    ensures
        a == admission(occupancy, enqueue),
{
    if !below_high_water(occupancy) {
        Admission::DroppedHighWater
    } else {
        match enqueue {
            Enqueue::Queued => Admission::Queued,
            Enqueue::Full => Admission::DroppedFull,
            Enqueue::Closed => Admission::DroppedClosed,
        }
    }
}

/// `tokio::sync::mpsc::Sender`: a sending half of a bounded channel. What
/// the channel holds changes under the hands of other tasks and has no
/// model here.
#[verifier::external_type_specification]
#[verifier::external_body]
#[verifier::reject_recursive_types(T)]
pub struct ExSender<T>(Sender<T>);

/// `tokio::sync::mpsc::Receiver`: the receiving half of a bounded channel,
/// carried to the task that takes the frames out.
#[verifier::external_type_specification]
#[verifier::external_body]
#[verifier::reject_recursive_types(T)]
pub struct ExReceiver<T>(Receiver<T>);

/// The number of frames that the channel of a sending half holds at most:
/// the bound the channel was made with.
pub uninterp spec fn channel_bound(tx: Sender<Vec<u8>>) -> nat;

/// `tokio::sync::mpsc::channel`: makes a bounded channel. The bound of the
/// sending half is `capacity`. The call panics on a capacity of zero or
/// above `usize::MAX >> 3`, which `requires` leaves out.
#[verifier::external_body]
fn bounded_channel(capacity: usize) -> (halves: (Sender<Vec<u8>>, Receiver<Vec<u8>>))
    requires
        0 < capacity <= usize::MAX / 8,
    ensures
        channel_bound(halves.0) == capacity,
{
    tokio::sync::mpsc::channel(capacity)
}

/// `Sender::max_capacity`: the bound the channel was made with.
#[verifier::external_body]
fn sender_bound(tx: &Sender<Vec<u8>>) -> (n: usize)
    ensures
        n == channel_bound(*tx),
{
    tx.max_capacity()
}

/// `Sender::clone`: another sending half of the same channel, hence with the
/// same bound.
#[verifier::external_body]
fn sender_clone(tx: &Sender<Vec<u8>>) -> (other: Sender<Vec<u8>>)
    ensures
        channel_bound(other) == channel_bound(*tx),
{
    tx.clone()
}

/// `Sender::try_send`: enqueues without waiting and tells which of its three
/// answers came. Which one comes depends on what the other tasks have done
/// to the channel, so nothing is promised of it.
#[verifier::external_body]
fn try_enqueue(tx: &Sender<Vec<u8>>, frame: Vec<u8>) -> (answer: Enqueue) {
    match tx.try_send(frame) {
        Ok(()) => Enqueue::Queued,
        Err(tokio::sync::mpsc::error::TrySendError::Full(_)) => Enqueue::Full,
        Err(tokio::sync::mpsc::error::TrySendError::Closed(_)) => Enqueue::Closed,
    }
}

/// The producer's half of the frame queue.
pub struct FrameSender {
    tx: Sender<Vec<u8>>,
}

/// Makes the frame queue: the producer's half, and the receiving half of a
/// channel for `QUEUE_CAPACITY` frames.
pub fn frame_channel() -> (halves: (FrameSender, Receiver<Vec<u8>>))
    ensures
        halves.0.bound() == QUEUE_CAPACITY,
{
    let (tx, rx) = bounded_channel(QUEUE_CAPACITY);
    (FrameSender { tx }, rx)
}

impl FrameSender {
    /// Frames that the queue behind this half holds at most.
    pub closed spec fn bound(&self) -> nat {
        channel_bound(self.tx)
    }

    /// Frames that the queue holds at most.
    pub fn capacity(&self) -> (n: usize)
        ensures
            n == self.bound(),
    {
        sender_bound(&self.tx)
    }

    /// Another producer's half of the same queue, for the extractor that
    /// follows a restart of the encoder.
    pub fn duplicate(&self) -> (other: FrameSender)
        ensures
            other.bound() == self.bound(),
    {
        FrameSender { tx: sender_clone(&self.tx) }
    }

    /// Deals with one frame: reads the counter, drops the frame where the
    /// counter forbids it, else offers it to the channel without waiting and
    /// counts it where the channel took it.
    ///
    /// The report holds the counter as it was read and what became of the
    /// frame: dropped at high water exactly where that reading does not
    /// admit a frame.
    pub fn offer(&self, telemetry: &SharedTelemetry, frame: Vec<u8>) -> (offer: Offer)
        ensures
            offer.admission == Admission::DroppedHighWater <==> !admits(offer.occupancy),
    {
        let occupancy: u64 = telemetry.occupancy();
        if !below_high_water(occupancy) {
            return Offer { occupancy, admission: Admission::DroppedHighWater };
        }
        let enqueue = try_enqueue(&self.tx, frame);
        let admission = settle(occupancy, enqueue);
        if admission == Admission::Queued {
            telemetry.frame_enqueued();
        }
        Offer { occupancy, admission }
    }

    /// Takes one chunk of the encoder's output: cuts the frames that are now
    /// complete and deals with each in stream order.
    ///
    /// The extractor moves as `FrameExtractor::feed` says, and every frame
    /// cut is counted once in the report.
    pub fn pump(
        &self,
        extractor: &mut FrameExtractor,
        telemetry: &SharedTelemetry,
        chunk: &[u8],
    ) -> (report: PumpReport)
        ensures
            final(extractor)@ == retained(old(extractor)@ + chunk@),
            report.queued + report.dropped_high_water + report.dropped_full
                + report.dropped_closed == scan(old(extractor)@ + chunk@).frames.len(),
    {
        let mut frames = extractor.feed(chunk);
        let total: usize = frames.len();
        let mut report = PumpReport {
            queued: 0,
            dropped_high_water: 0,
            dropped_full: 0,
            dropped_closed: 0,
        };
        let mut i: usize = 0;
        while i < total
            invariant
                i <= total,
                total == frames@.len(),
                report.queued + report.dropped_high_water + report.dropped_full
                    + report.dropped_closed == i,
            decreases total - i,
        {
            let mut frame: Vec<u8> = Vec::new();
            std::mem::swap(&mut frame, &mut frames[i]);
            let offer = self.offer(telemetry, frame);
            match offer.admission {
                Admission::Queued => {
                    report.queued = report.queued + 1;
                },
                Admission::DroppedHighWater => {
                    report.dropped_high_water = report.dropped_high_water + 1;
                },
                Admission::DroppedFull => {
                    report.dropped_full = report.dropped_full + 1;
                },
                Admission::DroppedClosed => {
                    report.dropped_closed = report.dropped_closed + 1;
                },
            }
            i += 1;
        }
        report
    }
}

} // verus!
