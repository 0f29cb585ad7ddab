//! The device's life in the event reactor: it first waits for its
//! activation, and from then on for the driver's queue notifications.
//!
//! The reactor's glue delivers each event to `Tpm::process` and carries out
//! what the outcome asks for.

use vstd::prelude::*;
use crate::device::drains;
use crate::device::Tpm;
use crate::device::TpmView;
use crate::queue::QueueView;

verus! {

/// The event set that the device listens for: readiness to read.
pub const EVENT_IN: u32 = 1;

/// The notification that the reactor is to watch for the device.
#[derive(Clone, Copy, Debug, PartialEq, Eq, Structural)]
pub enum Subscription {
    /// The activation notification: the device waits to be activated.
    Activation,
    /// The queue notification: the device serves the driver.
    Runtime,
}

/// What became of an event that was delivered to the device.
#[derive(Clone, Copy, Debug, PartialEq, Eq, Structural)]
pub enum EventOutcome {
    /// The event set held more than readiness to read: dropped.
    UnknownEvent,
    /// The device is not activated yet: dropped.
    NotActivated,
    /// The activation notification arrived. The reactor is to consume it,
    /// to watch the queue notification from now on, and to stop watching
    /// the activation notification.
    Activated,
    /// The queue notification arrived and the queue was drained. Where
    /// `interrupt` is set, the guest is owed one interrupt.
    QueueDrained { interrupt: bool },
    /// The event came from a source that the device does not know: dropped.
    Spurious,
}

/// Whether the event set `set` holds every event of `other`.
pub open spec fn event_set_contains(set: u32, other: u32) -> bool {
    set & other == other
}

/// Whether an event is the driver's queue notification and is served: it
/// names nothing but readiness to read, the device is activated, and the
/// source is the queue notification and not the activation notification.
pub open spec fn is_queue_event(tpm: TpmView, source: i32, event_set: u32) -> bool {
    &&& event_set_contains(EVENT_IN, event_set)
    &&& tpm.memory is Some
    &&& source != tpm.activate_evt
    &&& source == tpm.queue_evt
}

/// What becomes of an event that is not a served queue notification.
pub open spec fn outcome_without_drain(tpm: TpmView, source: i32, event_set: u32) -> EventOutcome {
    if !event_set_contains(EVENT_IN, event_set) {
        EventOutcome::UnknownEvent
    } else if tpm.memory is None {
        EventOutcome::NotActivated
    } else if source == tpm.activate_evt {
        EventOutcome::Activated
    } else {
        EventOutcome::Spurious
    }
}

impl Tpm {
    /// The notification to watch when the device joins the reactor: the
    /// queue notification where it is activated already, else the
    /// activation notification.
    pub fn init(&self) -> (subscription: Subscription)
        ensures
            subscription == (if self@.memory is Some {
                Subscription::Runtime
            } else {
                Subscription::Activation
            }),
    {
        if self.is_activated() {
            Subscription::Runtime
        } else {
            Subscription::Activation
        }
    }

    /// Handles the event `event_set` that the reactor saw on `source`.
    ///
    /// Only readiness to read counts, and only once the device is
    /// activated. The activation notification is then answered with
    /// `Activated`, the queue notification with a drain of the queue, and
    /// any other source is dropped. Nothing but a drain changes the device.
    pub fn process(&mut self, source: i32, event_set: u32) -> (outcome: EventOutcome)
        requires
            old(self).wf(),
        ensures
            final(self).wf(),
            is_queue_event(old(self)@, source, event_set) ==> {
                &&& outcome == (EventOutcome::QueueDrained {
                    interrupt: final(self)@.queues[0].used.len() > old(self)@.queues[0].used.len(),
                })
                &&& drains(
                    old(self)@.engine(0),
                    old(self)@.queues[0].max_size,
                    old(self)@.queues[0].avail,
                    final(self)@.engine(0),
                )
                &&& final(self)@.memory is Some
                &&& final(self)@.memory->0.dom() == old(self)@.memory->0.dom()
                &&& final(self)@ == (TpmView {
                    queues: seq![
                        QueueView {
                            avail: Seq::empty(),
                            used: final(self)@.queues[0].used,
                            notification_enabled: true,
                            ..old(self)@.queues[0]
                        },
                    ],
                    memory: final(self)@.memory,
                    exchanges: final(self)@.exchanges,
                    ..old(self)@
                })
            },
            !is_queue_event(old(self)@, source, event_set) ==> outcome == outcome_without_drain(
                old(self)@,
                source,
                event_set,
            ) && final(self)@ == old(self)@,
    {
        if EVENT_IN & event_set != event_set {
            return EventOutcome::UnknownEvent;
        }
        if !self.is_activated() {
            return EventOutcome::NotActivated;
        }
        let activate_fd = self.activate_evt();
        let virtq_fd = self.queue_events()[0];
        if source == activate_fd {
            EventOutcome::Activated
        } else if source == virtq_fd {
            let interrupt = self.process_virtio_queues();
            EventOutcome::QueueDrained { interrupt }
        } else {
            EventOutcome::Spurious
        }
    }
}

} // verus!
