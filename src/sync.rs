use vstd::prelude::*;

use crate::text::copy_bytes;

verus! {

/// The saved OS configuration of the device, tagged by platform. Each variant
/// holds the platform's configuration document as encoded bytes.
pub enum JoinedOSConfig {
    MacOS(Vec<u8>),
    Relay(Vec<u8>),
}

pub enum OsConfigView {
    MacOS(Seq<u8>),
    Relay(Seq<u8>),
}

impl View for JoinedOSConfig {
    type V = OsConfigView;

    open spec fn view(&self) -> OsConfigView {
        match self {
            JoinedOSConfig::MacOS(b) => OsConfigView::MacOS(b@),
            JoinedOSConfig::Relay(b) => OsConfigView::Relay(b@),
        }
    }
}

impl JoinedOSConfig {
    /// A copy of this configuration.
    pub fn duplicate(&self) -> (r: JoinedOSConfig)
        ensures
            r@ == self@,
    {
        match self {
            JoinedOSConfig::MacOS(b) => JoinedOSConfig::MacOS(copy_bytes(b)),
            JoinedOSConfig::Relay(b) => JoinedOSConfig::Relay(copy_bytes(b)),
        }
    }
}

/// The persisted hardware state: the push connection's state, the device
/// identity in its canonical serialized form, and the OS configuration.
pub struct SavedHardwareState {
    pub push: Vec<u8>,
    pub identity: Vec<u8>,
    pub os_config: JoinedOSConfig,
}

pub struct HardwareView {
    pub push: Seq<u8>,
    pub identity: Seq<u8>,
    pub os_config: OsConfigView,
}

impl View for SavedHardwareState {
    type V = HardwareView;

    open spec fn view(&self) -> HardwareView {
        HardwareView { push: self.push@, identity: self.identity@, os_config: self.os_config@ }
    }
}

/// A signal from the live connection's regeneration channel.
#[derive(Clone, Copy, Debug, PartialEq, Eq, Structural)]
pub enum SyncEvent {
    /// The connection regenerated its state.
    Regenerated,
    /// Notifications were dropped because the listener fell behind.
    Lagged,
    /// The channel is closed for good.
    Closed,
}

/// The hardware state made of a live push state and the captured pieces.
pub open spec fn snapshot_of(identity: Seq<u8>, os_config: OsConfigView, push: Seq<u8>) -> HardwareView {
    HardwareView { push, identity, os_config }
}

pub enum SyncOutcome {
    Persist(HardwareView),
    Skip,
    Stop,
}

/// What a listener holding `identity` and `os_config` does with a signal.
pub open spec fn sync_outcome(
    identity: Seq<u8>,
    os_config: OsConfigView,
    event: SyncEvent,
    live_push: Option<Seq<u8>>,
) -> SyncOutcome {
    match event {
        SyncEvent::Regenerated => match live_push {
            Some(p) => SyncOutcome::Persist(snapshot_of(identity, os_config, p)),
            None => SyncOutcome::Stop,
        },
        SyncEvent::Lagged => SyncOutcome::Skip,
        SyncEvent::Closed => SyncOutcome::Stop,
    }
}

/// The hardware state on disk after a listener has handled `events` (each a
/// signal and the live push state read for it), starting from `disk`.
pub open spec fn disk_after(
    identity: Seq<u8>,
    os_config: OsConfigView,
    events: Seq<(SyncEvent, Option<Seq<u8>>)>,
    disk: Option<HardwareView>,
) -> Option<HardwareView>
    decreases events.len(),
{
    if events.len() == 0 {
        disk
    } else {
        match sync_outcome(identity, os_config, events[0].0, events[0].1) {
            SyncOutcome::Persist(h) => disk_after(identity, os_config, events.drop_first(), Some(h)),
            SyncOutcome::Skip => disk_after(identity, os_config, events.drop_first(), disk),
            SyncOutcome::Stop => disk,
        }
    }
}

/// However many signals arrive and however many are dropped in between, once
/// a run of signals ends with a regeneration, the state on disk is the
/// snapshot of the live state read at that last signal, as long as the
/// channel stayed open and the connection alive.
pub proof fn lemma_last_signal_wins(
    identity: Seq<u8>,
    os_config: OsConfigView,
    events: Seq<(SyncEvent, Option<Seq<u8>>)>,
    disk: Option<HardwareView>,
    last_push: Seq<u8>,
)
    requires
        events.len() > 0,
        events.last() == (SyncEvent::Regenerated, Some(last_push)),
        forall|i: int|
            0 <= i < events.len() ==> (#[trigger] events[i]).0 != SyncEvent::Closed && (events[i].0
                == SyncEvent::Regenerated ==> events[i].1 is Some),
    ensures
        disk_after(identity, os_config, events, disk) == Some(
            snapshot_of(identity, os_config, last_push),
        ),
    decreases events.len(),
{
    let rest = events.drop_first();
    let next = match sync_outcome(identity, os_config, events[0].0, events[0].1) {
        SyncOutcome::Persist(h) => Some(h),
        _ => disk,
    };
    assert(events[0].0 != SyncEvent::Closed);
    if events.len() > 1 {
        assert(rest.last() == events.last());
        assert forall|i: int| 0 <= i < rest.len() implies (#[trigger] rest[i]).0 != SyncEvent::Closed
            && (rest[i].0 == SyncEvent::Regenerated ==> rest[i].1 is Some) by {
            assert(rest[i] == events[i + 1]);
        }
        lemma_last_signal_wins(identity, os_config, rest, next, last_push);
    } else {
        assert(events[0] == events.last());
    }
}

/// What the listener does with a signal.
pub enum SyncAction {
    /// Write this snapshot over the hardware state file.
    Persist(SavedHardwareState),
    /// Wait for the next signal.
    Skip,
    /// End the task.
    Stop,
}

/// Keeps the persisted hardware state in step with a live connection. It
/// holds what does not change after restoration (the identity and the OS
/// configuration); the push state is read from the connection at each signal.
pub struct StateSyncListener {
    pub identity: Vec<u8>,
    pub os_config: JoinedOSConfig,
}

pub open spec fn action_view(a: SyncAction) -> SyncOutcome {
    match a {
        SyncAction::Persist(s) => SyncOutcome::Persist(s@),
        SyncAction::Skip => SyncOutcome::Skip,
        SyncAction::Stop => SyncOutcome::Stop,
    }
}

impl StateSyncListener {
    pub fn new(identity: Vec<u8>, os_config: JoinedOSConfig) -> (r: StateSyncListener)
        ensures
            r.identity@ == identity@,
            r.os_config@ == os_config@,
    {
        StateSyncListener { identity, os_config }
    }

    /// A full hardware state built from the connection's current push state
    /// and the pieces captured at restoration.
    pub fn snapshot(&self, live_push: &Vec<u8>) -> (r: SavedHardwareState)
        ensures
            r@ == (HardwareView {
                push: live_push@,
                identity: self.identity@,
                os_config: self.os_config@,
            }),
    {
        SavedHardwareState {
            push: copy_bytes(live_push),
            identity: copy_bytes(&self.identity),
            os_config: self.os_config.duplicate(),
        }
    }

    /// Handles one signal. `live_push` is the connection's current push state,
    /// or `None` once the connection is no longer held anywhere else. A
    /// regeneration persists a fresh snapshot of the live state; dropped
    /// notifications are ignored, since the next signal resyncs; a closed
    /// channel or a gone connection stops the task.
    pub fn on_event(&self, event: SyncEvent, live_push: Option<&Vec<u8>>) -> (r: SyncAction)
        ensures
            action_view(r) == sync_outcome(
                self.identity@,
                self.os_config@,
                event,
                match live_push {
                    Some(p) => Some(p@),
                    None => None,
                },
            ),
    {
        match event {
            SyncEvent::Regenerated => match live_push {
                Some(p) => SyncAction::Persist(self.snapshot(p)),
                None => SyncAction::Stop,
            },
            SyncEvent::Lagged => SyncAction::Skip,
            SyncEvent::Closed => SyncAction::Stop,
        }
    }
}

} // verus!
