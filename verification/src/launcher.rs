//! State kept by the launcher's background worker.

pub mod known_projects;

use std::time::{Duration, SystemTime};

use vstd::prelude::*;

use crate::time::{duration_nanos, duration_new, system_time_duration_since, system_time_now};

verus! {

/// A reason why the worker has stopped.
#[derive(Debug, Clone, PartialEq, Eq)]
pub enum StopWorkReason {
    /// An unrecoverable error was encountered (with a description).
    FatalError(String),
    /// The other end of the connection was dropped.
    ConnectionDropped,
}

/// Used to keep track of what we know about a project.
#[derive(Debug, Clone, Copy, PartialEq, Eq, PartialOrd, Ord)]
pub enum ProjectKnownState {
    NotNew,
    New,
    Missing,
}

/// A message from another running instance of the launcher.
#[derive(Debug, Clone, Copy, PartialEq, Eq)]
pub enum OIMsg {
    /// Bring the launcher's window to the front.
    Focus,
    /// Close the launcher.
    Close,
    /// A project was changed.
    ProjectUpdated,
    /// A project could not be opened.
    ProjectOpenFailed,
}

/// Whether a message means the projects on disk must be scanned again: a
/// project was changed or could not be opened.
pub open spec fn calls_for_rescan(msg: OIMsg) -> bool {
    msg is ProjectUpdated || msg is ProjectOpenFailed
}

/// Whether `msg` means the projects on disk must be scanned again.
pub fn requires_rescan(msg: &OIMsg) -> (r: bool)
    ensures
        r == calls_for_rescan(*msg),
{
    match msg {
        OIMsg::Focus => false,
        OIMsg::Close => false,
        OIMsg::ProjectUpdated => true,
        OIMsg::ProjectOpenFailed => true,
    }
}

/// Whether any of the messages `msgs` calls for a rescan.
pub open spec fn any_calls_for_rescan(msgs: Seq<OIMsg>) -> bool {
    exists|i: int| 0 <= i < msgs.len() && calls_for_rescan(#[trigger] msgs[i])
}

/// Whether a message from another instance is passed on to the frontend:
/// all are but the news that a project was changed, which only calls for a
/// rescan.
pub open spec fn is_forwarded(msg: OIMsg) -> bool {
    !(msg is ProjectUpdated)
}

/// Relays the messages other instances send, one at a time as they are
/// received: says which to pass on to the frontend, and remembers whether
/// any called for a rescan of the projects on disk.
pub struct OIMsgRelay {
    rescan_required: bool,
    received: Ghost<Seq<OIMsg>>,
}

impl View for OIMsgRelay {
    type V = Seq<OIMsg>;

    /// The messages received so far, in order.
    closed spec fn view(&self) -> Seq<OIMsg> {
        self.received@
    }
}

impl OIMsgRelay {
    #[verifier::type_invariant]
    spec fn inv(&self) -> bool {
        self.rescan_required == any_calls_for_rescan(self.received@)
    }

    /// Nothing received yet.
    pub fn new() -> (r: Self)
        ensures
            r@ == Seq::<OIMsg>::empty(),
    {
        OIMsgRelay { rescan_required: false, received: Ghost(Seq::empty()) }
    }

    /// `msg` was received; whether to pass it on to the frontend.
    pub fn on_message(&mut self, msg: OIMsg) -> (r: bool)
        ensures
            r == is_forwarded(msg),
            final(self)@ == old(self)@.push(msg),
    {
        proof {
            use_type_invariant(&*self);
        }
        let ghost prev = self.received@;
        let ghost received = prev.push(msg);
        let rescan_required = self.rescan_required || requires_rescan(&msg);
        proof {
            assert forall|i: int| 0 <= i < prev.len() implies #[trigger] received[i] == prev[i] by {}
            if rescan_required {
                if calls_for_rescan(msg) {
                    assert(received[prev.len() as int] == msg);
                    assert(calls_for_rescan(received[prev.len() as int]));
                } else {
                    let j = choose|j: int| 0 <= j < prev.len() && calls_for_rescan(#[trigger] prev[j]);
                    assert(received[j] == prev[j]);
                    assert(calls_for_rescan(received[j]));
                }
            } else {
                assert forall|i: int| 0 <= i < received.len() implies !calls_for_rescan(
                    #[trigger] received[i],
                ) by {
                    if i < prev.len() {
                        assert(received[i] == prev[i]);
                    }
                }
            }
        }
        assert(rescan_required == any_calls_for_rescan(received));
        *self = OIMsgRelay { rescan_required, received: Ghost(received) };
        match msg {
            OIMsg::ProjectUpdated => false,
            _ => true,
        }
    }

    /// Whether any message received called for a rescan.
    pub fn rescan_required(&self) -> (r: bool)
        ensures
            r == any_calls_for_rescan(self@),
    {
        proof {
            use_type_invariant(self);
            assert(self@ == self.received@);
        }
        self.rescan_required
    }
}

/// Why the worker stops when receiving from another instance failed.
pub fn receive_failed() -> (r: StopWorkReason)
    ensures
        r matches StopWorkReason::FatalError(m) && m@
            == "Failed to receive message from other instance."@,
{
    StopWorkReason::FatalError(String::from_str("Failed to receive message from other instance."))
}

/// The time since `start_time` on the wall clock, or zero if the clock now
/// reads earlier than `start_time`. See [elapsed_of_reading] for the value
/// given a reading.
pub fn elapsed_time(start_time: SystemTime) -> Duration {
    elapsed_of_reading(system_time_duration_since(system_time_now(), start_time))
}

/// The elapsed time for a reading of the wall clock against a start time:
/// the reading itself, or zero for a clock that reads earlier than the start
/// ([None]).
pub fn elapsed_of_reading(since_start: Option<Duration>) -> (r: Duration)
    ensures
        match since_start {
            Some(d) => r == d,
            None => duration_nanos(r) == 0,
        },
{
    match since_start {
        Some(d) => d,
        None => duration_new(0, 0),
    }
}

} // verus!
