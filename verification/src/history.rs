//! What holds of the settings and of the update register over a whole run of
//! events, whatever the events are.

use crate::control::{update_step, DownloadStatus, UpdateEvent};
use crate::settings::{SettingsView, SubscriptionView};
use vstd::prelude::*;

verus! {

/// Something that happens to the settings.
pub enum SettingsEvent {
    /// A download stored this subscription.
    Created(SubscriptionView),
    /// A delete call named this position and the file was gone.
    Deleted(int),
    /// The proxy was asked to be on or off.
    Toggled(bool),
    /// This path was selected as the profile.
    Selected(Seq<char>),
    /// The process was seen running or not.
    Polled(bool),
}

/// The settings after one event.
pub open spec fn apply(settings: SettingsView, event: SettingsEvent) -> SettingsView {
    match event {
        SettingsEvent::Created(sub) => settings.appended(sub),
        SettingsEvent::Deleted(index) => settings.deleted(index),
        SettingsEvent::Toggled(requested) => settings.toggled(requested),
        SettingsEvent::Selected(path) => settings.selected(path),
        SettingsEvent::Polled(running) => settings.reconciled(running),
    }
}

/// The settings after a run of events, the first one first.
pub open spec fn replay(start: SettingsView, events: Seq<SettingsEvent>) -> SettingsView
    decreases events.len(),
{
    if events.len() == 0 {
        start
    } else {
        apply(replay(start, events.drop_last()), events.last())
    }
}

/// The subscriptions that a run of events created, in the order of their
/// creation.
pub open spec fn created(events: Seq<SettingsEvent>) -> Seq<SubscriptionView>
    decreases events.len(),
{
    if events.len() == 0 {
        Seq::empty()
    } else {
        match events.last() {
            SettingsEvent::Created(sub) => created(events.drop_last()).push(sub),
            _ => created(events.drop_last()),
        }
    }
}

/// For a run of events that begins with an empty list: which of the created
/// subscriptions are still listed, each by its position in `created`, in the
/// order of the list.
pub open spec fn survivors(events: Seq<SettingsEvent>) -> Seq<int>
    decreases events.len(),
{
    if events.len() == 0 {
        Seq::empty()
    } else {
        let before = survivors(events.drop_last());
        match events.last() {
            SettingsEvent::Created(_) => before.push(created(events.drop_last()).len() as int),
            SettingsEvent::Deleted(index) => if 0 <= index < before.len() {
                before.remove(index)
            } else {
                before
            },
            _ => before,
        }
    }
}

/// The number of deletions, in a run of events that begins with an empty
/// list, that named a listed subscription.
pub open spec fn deletions(events: Seq<SettingsEvent>) -> nat
    decreases events.len(),
{
    if events.len() == 0 {
        0
    } else {
        let before = deletions(events.drop_last());
        match events.last() {
            SettingsEvent::Deleted(index) => if 0 <= index < survivors(events.drop_last()).len() {
                before + 1
            } else {
                before
            },
            _ => before,
        }
    }
}

/// Whatever happens to settings whose list starts empty, the list holds the
/// created subscriptions that were not deleted, in the order of their
/// creation: `survivors` is strictly increasing, each listed item is the
/// created one that `survivors` names, and the list is as long as the number
/// of creations less the number of deletions that named a listed item.
/// Toggling, selecting and polling leave the list as it is.
pub proof fn listing_keeps_creation_order(start: SettingsView, events: Seq<SettingsEvent>)
    requires
        start.subscriptions.len() == 0,
    ensures
        replay(start, events).subscriptions.len() == survivors(events).len(),
        replay(start, events).subscriptions.len() == created(events).len() - deletions(events),
        forall|k: int|
            0 <= k < survivors(events).len() ==> 0 <= #[trigger] survivors(events)[k] < created(
                events,
            ).len(),
        forall|k: int|
            0 <= k < survivors(events).len() ==> #[trigger] replay(start, events).subscriptions[k]
                == created(events)[survivors(events)[k]],
        forall|j: int, k: int|
            0 <= j < k < survivors(events).len() ==> survivors(events)[j] < survivors(events)[k],
    decreases events.len(),
{
    if events.len() > 0 {
        let earlier = events.drop_last();
        listing_keeps_creation_order(start, earlier);
        let list = replay(start, earlier).subscriptions;
        let live = survivors(earlier);
        match events.last() {
            SettingsEvent::Created(sub) => {
                assert(replay(start, events).subscriptions == list.push(sub));
                assert(survivors(events) == live.push(created(earlier).len() as int));
            },
            SettingsEvent::Deleted(index) => {
                if 0 <= index < list.len() {
                    assert(replay(start, events).subscriptions == list.remove(index));
                    assert(survivors(events) == live.remove(index));
                }
            },
            _ => {
                assert(replay(start, events).subscriptions == list);
            },
        }
    }
}

/// The update register after a run of events, the first one first.
pub open spec fn update_run(status: DownloadStatus, events: Seq<UpdateEvent>) -> DownloadStatus
    decreases events.len(),
{
    if events.len() == 0 {
        status
    } else {
        update_step(update_run(status, events.drop_last()), events.last())
    }
}

/// Once the supervising task has spawned the refreshes, the update register
/// reads `Success`, however the refreshes that ended before did end and
/// however those that end later will: it reads so until the next update call.
pub proof fn update_reads_success_once_spawned(
    status: DownloadStatus,
    before: Seq<UpdateEvent>,
    after: Seq<UpdateEvent>,
)
    requires
        forall|i: int| 0 <= i < after.len() ==> #[trigger] after[i] is Refreshed,
    ensures
        update_run(status, before.push(UpdateEvent::Spawned) + after) == DownloadStatus::Success,
    decreases after.len(),
{
    let events = before.push(UpdateEvent::Spawned) + after;
    if after.len() == 0 {
        assert(events =~= before.push(UpdateEvent::Spawned));
        assert(events.drop_last() =~= before);
    } else {
        update_reads_success_once_spawned(status, before, after.drop_last());
        assert(events.drop_last() =~= before.push(UpdateEvent::Spawned) + after.drop_last());
        assert(events.last() == after.last());
    }
}

} // verus!
