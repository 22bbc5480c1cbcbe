//! Connection sessions whose type tracks the connection's phase:
//! disconnected, connected, then ready for normal operations.

use crate::subscriptions::{no_subscriptions, Subscriptions};
use std::time::Instant;
use vstd::prelude::*;

verus! {

/// `std::time::Instant`, a reading of a monotonic clock.
#[verifier::external_type_specification]
#[verifier::external_body]
pub struct ExInstant(Instant);

/// `Instant::now`. It reads the clock, so nothing is stated of it.
#[verifier::external_body]
fn instant_now() -> (r: Instant) {
    Instant::now()
}

/// Whole seconds since `moment`: `Instant::elapsed` then `Duration::as_secs`.
/// It reads the clock, so nothing is stated of it.
#[verifier::external_body]
fn whole_seconds_since(moment: &Instant) -> (r: u64) {
    moment.elapsed().as_secs()
}

/// A session is timed out once it has been idle for `timeout_secs` or more.
pub fn idle_exceeds(idle_secs: u64, timeout_secs: u64) -> (r: bool)
    ensures
        r == (idle_secs >= timeout_secs),
{
    idle_secs >= timeout_secs
}

/// Initial phase: no connection.
pub struct Disconnected;

/// The TCP connection is established, authentication pending.
pub struct Connected {
    /// Address of the remote client.
    pub addr: String,
    /// When the connection was established.
    pub connected_at: Instant,
}

/// Authenticated and ready for normal operations.
pub struct Ready {
    /// Address of the remote client.
    pub addr: String,
    /// When the connection was established.
    pub connected_at: Instant,
    /// When the last message was received.
    pub last_activity: Instant,
    /// Active subscriptions of this connection.
    pub subscriptions: Subscriptions,
}

/// A connection session in phase `S`; only the valid phase transitions exist.
pub struct ConnectionSession<S> {
    state: S,
}

impl<S> ConnectionSession<S> {
    /// The phase data of the session.
    pub closed spec fn phase(&self) -> S {
        self.state
    }
}

impl ConnectionSession<Disconnected> {
    /// A session with no connection.
    pub fn new() -> (r: Self) {
        ConnectionSession { state: Disconnected }
    }

    /// Moves to the connected phase once a TCP connection from `addr` exists.
    pub fn connect(self, addr: String) -> (r: ConnectionSession<Connected>)
        ensures
            r.phase().addr == addr,
    {
        ConnectionSession { state: Connected { addr, connected_at: instant_now() } }
    }
}

impl Default for ConnectionSession<Disconnected> {
    fn default() -> (r: Self) {
        Self::new()
    }
}

impl ConnectionSession<Connected> {
    /// The client's address.
    pub fn addr(&self) -> (r: String)
        ensures
            r == self.phase().addr,
    {
        self.state.addr.clone()
    }

    /// When the connection was established.
    pub fn connected_at(&self) -> (r: Instant)
        ensures
            r == self.phase().connected_at,
    {
        self.state.connected_at
    }

    /// Moves to the ready phase after authentication (MID 0001/0002), with
    /// no subscription yet.
    pub fn authenticate(self) -> (r: ConnectionSession<Ready>)
        ensures
            r.phase().addr == self.phase().addr,
            r.phase().connected_at == self.phase().connected_at,
            r.phase().subscriptions == no_subscriptions(),
    {
        ConnectionSession {
            state: Ready {
                addr: self.state.addr,
                connected_at: self.state.connected_at,
                last_activity: instant_now(),
                subscriptions: Subscriptions::new(),
            },
        }
    }

    /// Drops the connection.
    pub fn disconnect(self) -> (r: ConnectionSession<Disconnected>) {
        ConnectionSession::new()
    }
}

impl ConnectionSession<Ready> {
    /// The client's address.
    pub fn addr(&self) -> (r: String)
        ensures
            r == self.phase().addr,
    {
        self.state.addr.clone()
    }

    /// When the connection was established.
    pub fn connected_at(&self) -> (r: Instant)
        ensures
            r == self.phase().connected_at,
    {
        self.state.connected_at
    }

    /// When the last message was received.
    pub fn last_activity(&self) -> (r: Instant)
        ensures
            r == self.phase().last_activity,
    {
        self.state.last_activity
    }

    /// Records that a message was just received.
    pub fn update_keep_alive(&mut self)
        ensures
            final(self).phase().addr == old(self).phase().addr,
            final(self).phase().connected_at == old(self).phase().connected_at,
            final(self).phase().subscriptions == old(self).phase().subscriptions,
    {
        self.state.last_activity = instant_now();
    }

    /// Whether the session has been idle for `timeout_secs` seconds or more.
    pub fn is_timed_out(&self, timeout_secs: u64) -> (r: bool)
        ensures
            timeout_secs == 0 ==> r,
    {
        idle_exceeds(whole_seconds_since(&self.state.last_activity), timeout_secs)
    }

    /// The subscriptions, for changing them.
    pub fn subscriptions_mut(&mut self) -> (r: &mut Subscriptions)
        ensures
            *r == old(self).phase().subscriptions,
            final(self).phase() == (Ready { subscriptions: *final(r), ..old(self).phase() }),
    {
        &mut self.state.subscriptions
    }

    /// The subscriptions.
    pub fn subscriptions(&self) -> (r: &Subscriptions)
        ensures
            *r == self.phase().subscriptions,
    {
        &self.state.subscriptions
    }

    /// Subscribes to tightening results (MID 0060).
    pub fn subscribe_tightening_result(&mut self, revision: u8)
        ensures
            final(self).phase() == (Ready {
                subscriptions: Subscriptions {
                    tightening_result: Some(revision),
                    ..old(self).phase().subscriptions
                },
                ..old(self).phase()
            }),
    {
        self.state.subscriptions.subscribe_tightening_result(revision);
    }

    /// Unsubscribes from tightening results (MID 0063).
    pub fn unsubscribe_tightening_result(&mut self)
        ensures
            final(self).phase() == (Ready {
                subscriptions: Subscriptions {
                    tightening_result: None,
                    ..old(self).phase().subscriptions
                },
                ..old(self).phase()
            }),
    {
        self.state.subscriptions.unsubscribe_tightening_result();
    }

    /// Subscribes to parameter set selections (MID 0014).
    pub fn subscribe_pset_selection(&mut self)
        ensures
            final(self).phase() == (Ready {
                subscriptions: Subscriptions {
                    pset_selection: true,
                    ..old(self).phase().subscriptions
                },
                ..old(self).phase()
            }),
    {
        self.state.subscriptions.subscribe_pset_selection();
    }

    /// Unsubscribes from parameter set selections (MID 0017).
    pub fn unsubscribe_pset_selection(&mut self)
        ensures
            final(self).phase() == (Ready {
                subscriptions: Subscriptions {
                    pset_selection: false,
                    ..old(self).phase().subscriptions
                },
                ..old(self).phase()
            }),
    {
        self.state.subscriptions.unsubscribe_pset_selection();
    }

    /// Subscribes to vehicle IDs (MID 0051).
    pub fn subscribe_vehicle_id(&mut self)
        ensures
            final(self).phase() == (Ready {
                subscriptions: Subscriptions { vehicle_id: true, ..old(self).phase().subscriptions },
                ..old(self).phase()
            }),
    {
        self.state.subscriptions.subscribe_vehicle_id();
    }

    /// Unsubscribes from vehicle IDs (MID 0054).
    pub fn unsubscribe_vehicle_id(&mut self)
        ensures
            final(self).phase() == (Ready {
                subscriptions: Subscriptions { vehicle_id: false, ..old(self).phase().subscriptions },
                ..old(self).phase()
            }),
    {
        self.state.subscriptions.unsubscribe_vehicle_id();
    }

    /// Subscribes to multi-spindle status (MID 0090).
    pub fn subscribe_multi_spindle_status(&mut self)
        ensures
            final(self).phase() == (Ready {
                subscriptions: Subscriptions {
                    multi_spindle_status: true,
                    ..old(self).phase().subscriptions
                },
                ..old(self).phase()
            }),
    {
        self.state.subscriptions.subscribe_multi_spindle_status();
    }

    /// Unsubscribes from multi-spindle status (MID 0092).
    pub fn unsubscribe_multi_spindle_status(&mut self)
        ensures
            final(self).phase() == (Ready {
                subscriptions: Subscriptions {
                    multi_spindle_status: false,
                    ..old(self).phase().subscriptions
                },
                ..old(self).phase()
            }),
    {
        self.state.subscriptions.unsubscribe_multi_spindle_status();
    }

    /// Subscribes to multi-spindle results (MID 0100) at `revision`.
    pub fn subscribe_multi_spindle_result(&mut self, revision: u8)
        ensures
            final(self).phase() == (Ready {
                subscriptions: Subscriptions {
                    multi_spindle_result: Some(revision),
                    ..old(self).phase().subscriptions
                },
                ..old(self).phase()
            }),
    {
        self.state.subscriptions.subscribe_multi_spindle_result(revision);
    }

    /// Unsubscribes from multi-spindle results (MID 0103).
    pub fn unsubscribe_multi_spindle_result(&mut self)
        ensures
            final(self).phase() == (Ready {
                subscriptions: Subscriptions {
                    multi_spindle_result: None,
                    ..old(self).phase().subscriptions
                },
                ..old(self).phase()
            }),
    {
        self.state.subscriptions.unsubscribe_multi_spindle_result();
    }

    /// Drops the connection.
    pub fn disconnect(self) -> (r: ConnectionSession<Disconnected>) {
        ConnectionSession::new()
    }
}

} // verus!
