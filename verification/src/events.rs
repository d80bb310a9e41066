//! Hot-plug events: the notifications an OS-side listener produces and the
//! queue the application drains by polling.
//!
//! The listener runs on a backend-owned thread and must never call into
//! instance or device state: it only appends immutable events to this
//! queue, and `poll_events` on the instance is the single consumer.

use vstd::prelude::*;

verus! {

/// The direction of an endpoint enumeration or a default-device report.
#[derive(Clone, Copy, PartialEq, Eq, Structural, Debug)]
pub enum DataFlow {
    /// Input endpoints: recording.
    Capture,
    /// Output endpoints: playback.
    Render,
}

/// The role a default-device notification is scoped to. Only console-role
/// notifications are queued; the other roles are ignored by design.
#[derive(Clone, Copy, PartialEq, Eq, Structural, Debug)]
pub enum Role {
    /// Games, system sounds, voice commands: the role this design tracks.
    Console,
    /// Music and movies.
    Multimedia,
    /// Voice communications.
    Communications,
}

/// The state of a physical device as the OS reports it.
#[derive(Clone, Copy, PartialEq, Eq, Structural, Debug)]
pub enum DeviceState {
    /// Present and usable.
    Active,
    /// Disabled by the user or policy.
    Disabled,
    /// Known to the OS but not present.
    NotPresent,
    /// Jack-detection says unplugged.
    Unplugged,
    /// Anything the OS reports that the above do not cover.
    Unknown,
}

/// A hot-plug or state-change notification. Events are drained in FIFO
/// arrival order; no ordering is guaranteed across event types beyond that.
#[derive(Clone, PartialEq, Eq, Debug)]
pub enum Event {
    /// An endpoint appeared under this id.
    Added(String),
    /// The endpoint under this id was removed.
    Removed(String),
    /// The endpoint under this id changed state.
    Changed {
        /// The endpoint's id.
        device: String,
        /// Its new state.
        state: DeviceState,
    },
    /// The default endpoint of a direction changed.
    Default {
        /// The new default endpoint's id.
        device: String,
        /// The direction whose default changed.
        flow: DataFlow,
    },
}

/// The multiple-producer/single-consumer queue between the listener and
/// `poll_events`: events leave in arrival order.
#[derive(Debug)]
pub struct EventQueue {
    /// Queued events, oldest first.
    pub queued: Vec<Event>,
}

impl EventQueue {
    /// An empty queue.
    pub fn new() -> (r: EventQueue)
        ensures
            r.queued@ =~= Seq::<Event>::empty(),
    {
        EventQueue { queued: Vec::new() }
    }

    /// Appends one event behind all queued ones.
    pub fn push(&mut self, event: Event)
        ensures
            final(self).queued@ =~= old(self).queued@.push(event),
    {
        self.queued.push(event);
    }

    /// Removes and returns the oldest event, or `None` on an empty queue.
    pub fn pop_front(&mut self) -> (r: Option<Event>)
        ensures
            old(self).queued@.len() == 0 ==> r is None && final(self).queued@
                =~= old(self).queued@,
            old(self).queued@.len() > 0 ==> r == Some(old(self).queued@[0]) && final(self).queued@
                =~= old(self).queued@.subrange(1, old(self).queued@.len() as int),
    {
        if self.queued.len() == 0 {
            None
        } else {
            Some(self.queued.remove(0))
        }
    }

    /// How many events are queued.
    pub fn len(&self) -> (n: usize)
        ensures
            n == self.queued@.len(),
    {
        self.queued.len()
    }
}

/// The listener the instance registers with the OS for hot-plug
/// notifications. Each callback translates one OS notification into an
/// `Event` and appends it to the queue — it never invokes user code and
/// never touches registry state, preserving the single-consumer contract.
#[derive(Debug)]
pub struct NotificationClient {
    /// The queue the listener feeds.
    pub tx: EventQueue,
}

impl NotificationClient {
    /// A listener with an empty queue.
    pub fn new() -> (r: NotificationClient)
        ensures
            r.tx.queued@ =~= Seq::<Event>::empty(),
    {
        NotificationClient { tx: EventQueue::new() }
    }

    /// An endpoint changed state: queue `Changed`.
    pub fn on_device_state_changed(&mut self, device_id: String, state: DeviceState)
        ensures
            final(self).tx.queued@ =~= old(self).tx.queued@.push(
                Event::Changed { device: device_id, state },
            ),
    {
        self.tx.push(Event::Changed { device: device_id, state });
    }

    /// An endpoint appeared: queue `Added`.
    pub fn on_device_added(&mut self, device_id: String)
        ensures
            final(self).tx.queued@ =~= old(self).tx.queued@.push(Event::Added(device_id)),
    {
        self.tx.push(Event::Added(device_id));
    }

    /// An endpoint was removed: queue `Removed`.
    pub fn on_device_removed(&mut self, device_id: String)
        ensures
            final(self).tx.queued@ =~= old(self).tx.queued@.push(Event::Removed(device_id)),
    {
        self.tx.push(Event::Removed(device_id));
    }

    /// The default endpoint of a direction changed. Only the console role
    /// is tracked: a notification for another role queues nothing.
    pub fn on_default_device_changed(&mut self, flow: DataFlow, role: Role, device_id: String)
        ensures
            role is Console ==> final(self).tx.queued@ =~= old(self).tx.queued@.push(
                Event::Default { device: device_id, flow },
            ),
            !(role is Console) ==> final(self).tx.queued@ =~= old(self).tx.queued@,
    {
        match role {
            Role::Console => {
                self.tx.push(Event::Default { device: device_id, flow });
            }
            _ => {}
        }
    }

    /// A property value changed: not tracked, nothing is queued.
    pub fn on_property_value_changed(&mut self, device_id: String)
        ensures
            final(self).tx.queued@ =~= old(self).tx.queued@,
    {
        let _ = device_id;
    }
}

} // verus!
