//! The periodic synchronisation of the whole cache, at a fixed interval.

use crate::cache::Cache;
use vstd::prelude::*;

verus! {

/// The seconds from the start of one synchronisation of the whole cache to
/// the start of the next.
pub const SYNC_INTERVAL_SECS: u64 = 600;

/// The same interval in milliseconds.
pub const SYNC_INTERVAL_MILLIS: u64 = 600_000;

/// What the periodic synchronisation is told.
#[derive(Debug, Clone, Copy, PartialEq, Eq, Structural)]
pub enum SchedulerEvent {
    /// The periodic synchronisation has been started.
    Started,
    /// The wait that was asked for has passed.
    Tick,
    /// A synchronisation of the whole cache has ended, with so many
    /// failures, so many milliseconds after it started.
    BatchDone { failures: usize, elapsed_millis: u64 },
    /// The process shuts down.
    Shutdown,
}

/// What the periodic synchronisation does next.
#[derive(Debug, Clone, Copy, PartialEq, Eq, Structural)]
pub enum SchedulerAction {
    /// Synchronise every document now.
    SyncAll,
    /// Come back with `Tick` after so many milliseconds.
    Wait { millis: u64 },
    /// End the periodic synchronisation.
    Stop,
}

/// The wait after a synchronisation that took `elapsed_millis`: what is left
/// of the interval, and nothing if the synchronisation took longer.
pub open spec fn rest_of_interval(elapsed_millis: u64) -> u64 {
    if elapsed_millis >= SYNC_INTERVAL_MILLIS {
        0
    } else {
        (SYNC_INTERVAL_MILLIS - elapsed_millis) as u64
    }
}

/// The periodic synchronisation: it synchronises at once when it starts and
/// whenever the wait has passed. After a synchronisation, however many
/// documents failed, it waits for what is left of the interval, so that one
/// synchronisation starts one interval after the other. It stops only when
/// the process shuts down.
pub open spec fn scheduler_step(event: SchedulerEvent) -> SchedulerAction {
    match event {
        SchedulerEvent::Started => SchedulerAction::SyncAll,
        SchedulerEvent::Tick => SchedulerAction::SyncAll,
        SchedulerEvent::BatchDone { failures, elapsed_millis } => SchedulerAction::Wait {
            millis: rest_of_interval(elapsed_millis),
        },
        SchedulerEvent::Shutdown => SchedulerAction::Stop,
    }
}

impl Cache {
    /// One step of the periodic synchronisation of the cache with the remote
    /// store. Failures of single documents never stop it.
    pub fn start_auto_sync(&self, event: SchedulerEvent) -> (action: SchedulerAction)
        ensures
            action == scheduler_step(event),
            action is Stop <==> event is Shutdown,
            event matches SchedulerEvent::BatchDone { failures, elapsed_millis } ==> (action
                matches SchedulerAction::Wait { millis } && (elapsed_millis
                <= SYNC_INTERVAL_MILLIS ==> elapsed_millis + millis == SYNC_INTERVAL_MILLIS)),
    {
        match event {
            SchedulerEvent::Started => SchedulerAction::SyncAll,
            SchedulerEvent::Tick => SchedulerAction::SyncAll,
            SchedulerEvent::BatchDone { failures, elapsed_millis } => {
                if elapsed_millis >= SYNC_INTERVAL_MILLIS {
                    SchedulerAction::Wait { millis: 0 }
                } else {
                    SchedulerAction::Wait { millis: SYNC_INTERVAL_MILLIS - elapsed_millis }
                }
            },
            SchedulerEvent::Shutdown => SchedulerAction::Stop,
        }
    }
}

} // verus!
