//! The bounded channel that carries audio frames from the recorder to the
//! streaming session without ever blocking the recorder.

use vstd::prelude::*;
use std::sync::atomic::AtomicU64;

verus! {

#[verifier::external_type_specification]
#[verifier::external_body]
#[verifier::reject_recursive_types(T)]
pub struct ExSender<T>(crossbeam_channel::Sender<T>);

#[verifier::external_type_specification]
#[verifier::external_body]
#[verifier::reject_recursive_types(T)]
pub struct ExReceiver<T>(crossbeam_channel::Receiver<T>);

/// Number of frames the channel buffers before new frames are dropped.
pub const CHANNEL_CAPACITY: usize = 200;

/// How a non-blocking send ended.
pub enum SendOutcome {
    Sent,
    /// The channel was full; the frame was dropped.
    Full,
    /// The receiving side is gone; the frame was dropped.
    Disconnected,
}

/// Calls `crossbeam_channel::bounded(cap)`, which creates a channel holding
/// at most `cap` messages and returns its two ends.  It panics when the
/// capacity is too large for its index arithmetic, which the bound in
/// `requires` rules out; nothing is stated of the ends themselves.
#[verifier::external_body]
fn bounded_channel<T>(cap: usize) -> (ends: (crossbeam_channel::Sender<T>, crossbeam_channel::Receiver<T>))
    requires
        cap <= 0x2000_0000,
{
    crossbeam_channel::bounded(cap)
}

/// Calls `crossbeam_channel::Sender::try_send`, which never blocks: the
/// message is queued, or handed back because the channel is full or
/// disconnected; a handed-back message is dropped here.  Which of the three
/// happens depends on the other threads using the channel, so nothing is
/// stated of the outcome.
#[verifier::external_body]
fn send_without_blocking<T>(sender: &crossbeam_channel::Sender<T>, item: T) -> (outcome: SendOutcome) {
    match sender.try_send(item) {
        Ok(()) => SendOutcome::Sent,
        Err(crossbeam_channel::TrySendError::Full(_)) => SendOutcome::Full,
        Err(crossbeam_channel::TrySendError::Disconnected(_)) => SendOutcome::Disconnected,
    }
}

/// What a non-blocking send did with a frame.
pub enum SendReport {
    /// The frame was queued.
    Queued,
    /// The channel was full and the frame was dropped, after
    /// `previously_dropped` earlier drops; `warn` says whether this drop is
    /// one to report (the first, and then every hundredth).
    Dropped { previously_dropped: u64, warn: bool },
    /// The receiving side is gone; the frame was dropped.
    ReceiverGone,
}

/// The report for a send that ended with `outcome`, the channel having
/// dropped `previously_dropped` frames before (that count only matters when
/// the frame is dropped because the channel is full).
pub open spec fn report_for(outcome: SendOutcome, previously_dropped: u64) -> SendReport {
    match outcome {
        SendOutcome::Sent => SendReport::Queued,
        SendOutcome::Full => SendReport::Dropped {
            previously_dropped,
            warn: drop_warning_due(previously_dropped),
        },
        SendOutcome::Disconnected => SendReport::ReceiverGone,
    }
}

/// Turns how a send ended into its report: a queued frame, a frame dropped
/// on a full channel after `previously_dropped` earlier drops (with the
/// warning decision), or a frame dropped because the receiver is gone.
pub fn report_send(outcome: SendOutcome, previously_dropped: u64) -> (r: SendReport)
    ensures
        r == report_for(outcome, previously_dropped),
{
    match outcome {
        SendOutcome::Sent => SendReport::Queued,
        SendOutcome::Full => SendReport::Dropped {
            previously_dropped,
            warn: previously_dropped % 100 == 0,
        },
        SendOutcome::Disconnected => SendReport::ReceiverGone,
    }
}

/// Whether the drop that follows `previously_dropped` earlier drops is
/// reported: the first one and every hundredth after it.
pub open spec fn drop_warning_due(previously_dropped: u64) -> bool {
    previously_dropped % 100 == 0
}

/// A bounded channel of frames that drops frames when it is full and counts
/// how many it dropped.
#[verifier::reject_recursive_types(T)]
pub struct StreamingAudioChannel<T> {
    sender: crossbeam_channel::Sender<T>,
    receiver: crossbeam_channel::Receiver<T>,
    dropped_frames: AtomicU64,
    /// The capacity the channel was created with.
    capacity: Ghost<nat>,
}

impl<T> StreamingAudioChannel<T> {
    /// The channel's receiving end.
    pub closed spec fn receiving_end(&self) -> crossbeam_channel::Receiver<T> {
        self.receiver
    }

    /// The number of frames the channel was meant to hold, recorded when it
    /// was created; nothing ties this record to the crossbeam channel itself.
    pub closed spec fn capacity(&self) -> nat {
        self.capacity@
    }

    /// A channel of `CHANNEL_CAPACITY` frames with no frame dropped yet.
    pub fn new() -> (ch: Self)
        ensures
            ch.capacity() == CHANNEL_CAPACITY,
    {
        let (sender, receiver) = bounded_channel(CHANNEL_CAPACITY);
        StreamingAudioChannel {
            sender,
            receiver,
            dropped_frames: AtomicU64::new(0),
            capacity: Ghost(CHANNEL_CAPACITY as nat),
        }
    }

    /// Non-blocking send: the frame is queued, or dropped (and counted as
    /// dropped) when the channel is full, or dropped when the receiving side
    /// is gone.  A drop on a full channel reports the earlier drop count and
    /// whether this drop is one to warn about.
    /// Which outcome the send has, and the drop count, depend on the other
    /// threads using the channel; the report is `report_send`'s for them.
    pub fn try_send(&self, samples: T) -> (report: SendReport)
        ensures
            exists|outcome: SendOutcome, previously_dropped: u64|
                report == report_for(outcome, previously_dropped),
    {
        let outcome = send_without_blocking(&self.sender, samples);
        let previously_dropped = match outcome {
            SendOutcome::Full => self.dropped_frames.fetch_add(1, std::sync::atomic::Ordering::Relaxed),
            _ => 0,
        };
        report_send(outcome, previously_dropped)
    }

    /// The receiving end, for the streaming session.
    pub fn receiver(&self) -> (r: &crossbeam_channel::Receiver<T>)
        ensures
            *r == self.receiving_end(),
    {
        &self.receiver
    }
}

impl<T> Default for StreamingAudioChannel<T> {
    /// The same as `StreamingAudioChannel::new`.
    fn default() -> (ch: Self)
        ensures
            ch.capacity() == CHANNEL_CAPACITY,
    {
        Self::new()
    }
}

} // verus!
