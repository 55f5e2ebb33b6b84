//! The progress channel protocol: fetch progress events, the shape a
//! successful fetch's event history must have, and a reporter that emits
//! events best-effort over a bounded channel while recording that shape.

use vstd::prelude::*;

use crate::mod_info::{ModResolution, ModResolutionView};

verus! {

/// The sending half of the bounded progress channel; relies on tokio's
/// `tokio::sync::mpsc::Sender`.
#[verifier::external_type_specification]
#[verifier::external_body]
#[verifier::reject_recursive_types(T)]
pub struct ExSender<T>(tokio::sync::mpsc::Sender<T>);

/// One fetch progress event. Zero or more `Progress` events precede
/// exactly one `Complete` event per successful fetch; nothing is sent
/// after `Complete`.
#[derive(Debug, PartialEq, Eq)]
pub enum FetchProgress {
    Progress { resolution: ModResolution, progress: u64, size: u64 },
    Complete { resolution: ModResolution },
}

impl FetchProgress {
    /// The resolution this event is about.
    pub open spec fn resolution_spec(&self) -> ModResolutionView {
        match self {
            FetchProgress::Progress { resolution, .. } => resolution@,
            FetchProgress::Complete { resolution, .. } => resolution@,
        }
    }

    pub fn resolution(&self) -> (r: &ModResolution)
        ensures
            r@ == self.resolution_spec(),
    {
        match self {
            FetchProgress::Progress { resolution, .. } => resolution,
            FetchProgress::Complete { resolution, .. } => resolution,
        }
    }
}

/// `e` is a `Progress` event for `resolution` whose count is bounded by
/// `size`.
pub open spec fn is_progress_event(e: FetchProgress, resolution: ModResolutionView, size: u64) -> bool {
    match e {
        FetchProgress::Progress { resolution: r, progress, size: s } =>
            r@ == resolution && s == size && progress <= size,
        FetchProgress::Complete { .. } => false,
    }
}

/// The count a `Progress` event carries.
pub open spec fn progress_of(e: FetchProgress) -> u64 {
    match e {
        FetchProgress::Progress { progress, .. } => progress,
        FetchProgress::Complete { .. } => 0,
    }
}

/// `e` is the `Complete` event for `resolution`.
pub open spec fn is_complete_event(e: FetchProgress, resolution: ModResolutionView) -> bool {
    match e {
        FetchProgress::Complete { resolution: r } => r@ == resolution,
        FetchProgress::Progress { .. } => false,
    }
}

/// The event history of one successful fetch: zero or more `Progress`
/// events for `resolution`, non-decreasing and bounded by `size`,
/// terminated by exactly one `Complete` event for the same resolution.
pub open spec fn valid_progress_history(
    events: Seq<FetchProgress>,
    resolution: ModResolutionView,
    size: u64,
) -> bool {
    &&& events.len() >= 1
    &&& forall|i: int| 0 <= i < events.len() - 1 ==> is_progress_event(#[trigger] events[i], resolution, size)
    &&& forall|i: int, j: int|
        0 <= i <= j < events.len() - 1 ==> progress_of(#[trigger] events[i]) <= progress_of(#[trigger] events[j])
    &&& is_complete_event(events[events.len() - 1], resolution)
}

/// Relies on tokio's `Sender::try_send`: it either delivers the event now
/// or returns at once because the channel is full or the receiver is gone;
/// it never waits. The outcome is deliberately dropped: progress reporting
/// is best-effort and never a correctness dependency of the fetch.
#[verifier::external_body]
fn try_send_progress(sink: &tokio::sync::mpsc::Sender<FetchProgress>, event: FetchProgress) {
    let _ = sink.try_send(event);
}

/// The sole producer of progress events for one fetch. It enforces the
/// protocol: counts never decrease, never exceed the total size, and the
/// history ends in exactly one `Complete` event. Sends are best-effort; a
/// full channel or an absent or dropped receiver never fails the fetch.
pub struct ProgressReporter {
    sink: Option<tokio::sync::mpsc::Sender<FetchProgress>>,
    resolution: ModResolution,
    size: u64,
    last: u64,
    events: Ghost<Seq<FetchProgress>>,
}

impl ProgressReporter {
    /// The events emitted so far (delivery is best-effort; this is the
    /// emission history, in emission order).
    pub closed spec fn event_log(self) -> Seq<FetchProgress> {
        self.events@
    }

    /// The resolution this reporter reports for.
    pub closed spec fn resolution_spec(self) -> ModResolutionView {
        self.resolution@
    }

    /// The total size progress counts are bounded by.
    pub closed spec fn size_spec(self) -> u64 {
        self.size
    }

    /// The most recently reported count.
    pub closed spec fn last_spec(self) -> u64 {
        self.last
    }

    pub closed spec fn wf(self) -> bool {
        &&& self.last <= self.size
        &&& forall|i: int|
            0 <= i < self.events@.len()
                ==> is_progress_event(#[trigger] self.events@[i], self.resolution@, self.size)
        &&& forall|i: int|
            0 <= i < self.events@.len() ==> progress_of(#[trigger] self.events@[i]) <= self.last
        &&& forall|i: int, j: int|
            0 <= i <= j < self.events@.len()
                ==> progress_of(#[trigger] self.events@[i]) <= progress_of(#[trigger] self.events@[j])
    }

    /// A reporter for one fetch of `resolution` totalling `size` bytes.
    /// `sink` is absent when the caller wants no progress reported.
    pub fn new(
        sink: Option<tokio::sync::mpsc::Sender<FetchProgress>>,
        resolution: ModResolution,
        size: u64,
    ) -> (r: ProgressReporter)
        ensures
            r.wf(),
            r.event_log() == Seq::<FetchProgress>::empty(),
            r.resolution_spec() == resolution@,
            r.size_spec() == size,
            r.last_spec() == 0,
    {
        ProgressReporter { sink, resolution, size, last: 0, events: Ghost(Seq::empty()) }
    }

    /// Reports that `progress` of `size` bytes have been transferred.
    /// Counts never decrease and never exceed the size; delivery is
    /// best-effort and cannot fail.
    pub fn report(&mut self, progress: u64)
        requires
            old(self).wf(),
            old(self).last_spec() <= progress <= old(self).size_spec(),
        ensures
            final(self).wf(),
            final(self).event_log() == old(self).event_log().push(
                FetchProgress::Progress {
                    resolution: old(self).resolution_field(),
                    progress: progress,
                    size: old(self).size_spec(),
                },
            ),
            final(self).resolution_spec() == old(self).resolution_spec(),
            final(self).size_spec() == old(self).size_spec(),
            final(self).last_spec() == progress,
    {
        let event = FetchProgress::Progress {
            resolution: self.resolution.clone(),
            progress,
            size: self.size,
        };
        proof {
            self.events@ = self.events@.push(event);
        }
        if let Some(sink) = &self.sink {
            try_send_progress(sink, event);
        }
        self.last = progress;
    }

    /// The resolution value itself (not its view), for stating which
    /// exact event was appended.
    pub closed spec fn resolution_field(self) -> ModResolution {
        self.resolution
    }

    /// Ends the fetch's reporting with the single `Complete` event. The
    /// full emission history has the shape every successful fetch owes:
    /// non-decreasing counts bounded by the size, then one `Complete`.
    pub fn complete(self) -> (log: Ghost<Seq<FetchProgress>>)
        requires
            self.wf(),
        ensures
            log@ == self.event_log().push(
                FetchProgress::Complete { resolution: self.resolution_field() },
            ),
            valid_progress_history(log@, self.resolution_spec(), self.size_spec()),
    {
        let event = FetchProgress::Complete { resolution: self.resolution.clone() };
        let ghost log = self.events@.push(event);
        if let Some(sink) = &self.sink {
            try_send_progress(sink, event);
        }
        proof {
            assert(log[log.len() - 1] == event);
            assert forall|i: int| 0 <= i < log.len() - 1
                implies is_progress_event(#[trigger] log[i], self.resolution@, self.size) by {
                assert(log[i] == self.events@[i]);
            }
        }
        Ghost(log)
    }
}

} // verus!
