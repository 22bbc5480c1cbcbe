//! Per-connection subscription state.

use vstd::prelude::*;

verus! {

/// Which push messages a client has subscribed to.
#[derive(Debug, Clone, Copy)]
pub struct Subscriptions {
    /// Tightening results (MID 0061), with the subscribed revision.
    pub tightening_result: Option<u8>,
    /// Parameter set selections (MID 0015).
    pub pset_selection: bool,
    /// Vehicle IDs (MID 0052).
    pub vehicle_id: bool,
    /// Multi-spindle status (MID 0091).
    pub multi_spindle_status: bool,
    /// Multi-spindle results (MID 0101), with the subscribed revision.
    pub multi_spindle_result: Option<u8>,
    /// Alarms (not implemented by the simulator).
    pub alarm: bool,
    /// Job info (not implemented by the simulator).
    pub job_info: bool,
}

/// The state with no subscription at all.
pub open spec fn no_subscriptions() -> Subscriptions {
    Subscriptions {
        tightening_result: None,
        pset_selection: false,
        vehicle_id: false,
        multi_spindle_status: false,
        multi_spindle_result: None,
        alarm: false,
        job_info: false,
    }
}

/// 1 when `active` holds, 0 otherwise.
pub open spec fn indicator(active: bool) -> nat {
    if active {
        1
    } else {
        0
    }
}

impl Default for Subscriptions {
    fn default() -> (r: Self)
        ensures
            r == no_subscriptions(),
    {
        Subscriptions {
            tightening_result: None,
            pset_selection: false,
            vehicle_id: false,
            multi_spindle_status: false,
            multi_spindle_result: None,
            alarm: false,
            job_info: false,
        }
    }
}

impl Subscriptions {
    /// The number of active subscriptions.
    pub open spec fn spec_active_count(&self) -> nat {
        indicator(self.tightening_result is Some) + indicator(self.pset_selection) + indicator(
            self.vehicle_id,
        ) + indicator(self.multi_spindle_status) + indicator(self.multi_spindle_result is Some)
            + indicator(self.alarm) + indicator(self.job_info)
    }

    /// A subscription manager with every subscription off.
    pub fn new() -> (r: Self)
        ensures
            r == no_subscriptions(),
    {
        Self::default()
    }

    /// Subscribes to tightening results at `revision`.
    pub fn subscribe_tightening_result(&mut self, revision: u8)
        ensures
            *final(self) == (Subscriptions { tightening_result: Some(revision), ..*old(self) }),
    {
        self.tightening_result = Some(revision);
    }

    /// Unsubscribes from tightening results.
    pub fn unsubscribe_tightening_result(&mut self)
        ensures
            *final(self) == (Subscriptions { tightening_result: None, ..*old(self) }),
    {
        self.tightening_result = None;
    }

    /// Subscribes to parameter set selections.
    pub fn subscribe_pset_selection(&mut self)
        ensures
            *final(self) == (Subscriptions { pset_selection: true, ..*old(self) }),
    {
        self.pset_selection = true;
    }

    /// Unsubscribes from parameter set selections.
    pub fn unsubscribe_pset_selection(&mut self)
        ensures
            *final(self) == (Subscriptions { pset_selection: false, ..*old(self) }),
    {
        self.pset_selection = false;
    }

    /// Whether tightening results are subscribed.
    pub fn is_subscribed_to_tightening_result(&self) -> (r: bool)
        ensures
            r == self.tightening_result is Some,
    {
        self.tightening_result.is_some()
    }

    /// The subscribed tightening result revision.
    pub fn tightening_result_revision(&self) -> (r: Option<u8>)
        ensures
            r == self.tightening_result,
    {
        self.tightening_result
    }

    /// Whether parameter set selections are subscribed.
    pub fn is_subscribed_to_pset_selection(&self) -> (r: bool)
        ensures
            r == self.pset_selection,
    {
        self.pset_selection
    }

    /// Subscribes to vehicle IDs.
    pub fn subscribe_vehicle_id(&mut self)
        ensures
            *final(self) == (Subscriptions { vehicle_id: true, ..*old(self) }),
    {
        self.vehicle_id = true;
    }

    /// Unsubscribes from vehicle IDs.
    pub fn unsubscribe_vehicle_id(&mut self)
        ensures
            *final(self) == (Subscriptions { vehicle_id: false, ..*old(self) }),
    {
        self.vehicle_id = false;
    }

    /// Whether vehicle IDs are subscribed.
    pub fn is_subscribed_to_vehicle_id(&self) -> (r: bool)
        ensures
            r == self.vehicle_id,
    {
        self.vehicle_id
    }

    /// Subscribes to multi-spindle status.
    pub fn subscribe_multi_spindle_status(&mut self)
        ensures
            *final(self) == (Subscriptions { multi_spindle_status: true, ..*old(self) }),
    {
        self.multi_spindle_status = true;
    }

    /// Unsubscribes from multi-spindle status.
    pub fn unsubscribe_multi_spindle_status(&mut self)
        ensures
            *final(self) == (Subscriptions { multi_spindle_status: false, ..*old(self) }),
    {
        self.multi_spindle_status = false;
    }

    /// Whether multi-spindle status is subscribed.
    pub fn is_subscribed_to_multi_spindle_status(&self) -> (r: bool)
        ensures
            r == self.multi_spindle_status,
    {
        self.multi_spindle_status
    }

    /// Subscribes to multi-spindle results at `revision`.
    pub fn subscribe_multi_spindle_result(&mut self, revision: u8)
        ensures
            *final(self) == (Subscriptions { multi_spindle_result: Some(revision), ..*old(self) }),
    {
        self.multi_spindle_result = Some(revision);
    }

    /// Unsubscribes from multi-spindle results.
    pub fn unsubscribe_multi_spindle_result(&mut self)
        ensures
            *final(self) == (Subscriptions { multi_spindle_result: None, ..*old(self) }),
    {
        self.multi_spindle_result = None;
    }

    /// Whether multi-spindle results are subscribed.
    pub fn is_subscribed_to_multi_spindle_result(&self) -> (r: bool)
        ensures
            r == self.multi_spindle_result is Some,
    {
        self.multi_spindle_result.is_some()
    }

    /// The subscribed multi-spindle result revision.
    pub fn multi_spindle_result_revision(&self) -> (r: Option<u8>)
        ensures
            r == self.multi_spindle_result,
    {
        self.multi_spindle_result
    }

    /// The number of active subscriptions.
    pub fn active_count(&self) -> (r: usize)
        ensures
            r == self.spec_active_count(),
    {
        let mut count: usize = 0;
        if self.tightening_result.is_some() {
            count += 1;
        }
        if self.pset_selection {
            count += 1;
        }
        if self.vehicle_id {
            count += 1;
        }
        if self.multi_spindle_status {
            count += 1;
        }
        if self.multi_spindle_result.is_some() {
            count += 1;
        }
        if self.alarm {
            count += 1;
        }
        if self.job_info {
            count += 1;
        }
        count
    }

    /// Whether any subscription is active.
    pub fn has_any_subscription(&self) -> (r: bool)
        ensures
            r == (self.spec_active_count() > 0),
    {
        self.active_count() > 0
    }
}

/// A client's MID 0100 subscription to multi-spindle results.
#[derive(Debug, Clone, Copy, PartialEq, Eq, Structural)]
pub struct MultiSpindleResultSubscription {
    /// The revision in which results are sent.
    pub revision: u8,
    /// The result after which stored results are replayed, if given.
    pub data_no_system: Option<u32>,
    /// Whether only results produced after the subscription are sent.
    pub send_only_new_data: bool,
    /// The newest stored result when the subscription was made.
    pub latest_result_id: Option<u32>,
}

impl MultiSpindleResultSubscription {
    /// A subscription with the given parameters.
    pub fn new(
        revision: u8,
        data_no_system: Option<u32>,
        send_only_new_data: bool,
        latest_result_id: Option<u32>,
    ) -> (r: Self)
        ensures
            r == (MultiSpindleResultSubscription {
                revision,
                data_no_system,
                send_only_new_data,
                latest_result_id,
            }),
    {
        MultiSpindleResultSubscription {
            revision,
            data_no_system,
            send_only_new_data,
            latest_result_id,
        }
    }

    /// Whether a result produced while subscribed is sent live: only those
    /// newer than the newest result stored at subscription time, which the
    /// replay already covers.
    pub fn should_send_live_result(&self, result_id: u32) -> (r: bool)
        ensures
            r == match self.latest_result_id {
                Some(latest) => result_id > latest,
                None => true,
            },
    {
        match self.latest_result_id {
            Some(latest) => result_id > latest,
            None => true,
        }
    }
}

/// Unsubscribing undoes subscribing: for each kind of push message that
/// was off, subscribing to it and then unsubscribing from it gives back the
/// subscriptions exactly as they were.
pub proof fn unsubscribe_undoes_subscribe(s: Subscriptions, revision: u8)
    ensures
        s.tightening_result is None ==> (Subscriptions {
            tightening_result: None,
            ..(Subscriptions { tightening_result: Some(revision), ..s })
        }) == s,
        !s.pset_selection ==> (Subscriptions {
            pset_selection: false,
            ..(Subscriptions { pset_selection: true, ..s })
        }) == s,
        !s.vehicle_id ==> (Subscriptions {
            vehicle_id: false,
            ..(Subscriptions { vehicle_id: true, ..s })
        }) == s,
        !s.multi_spindle_status ==> (Subscriptions {
            multi_spindle_status: false,
            ..(Subscriptions { multi_spindle_status: true, ..s })
        }) == s,
        s.multi_spindle_result is None ==> (Subscriptions {
            multi_spindle_result: None,
            ..(Subscriptions { multi_spindle_result: Some(revision), ..s })
        }) == s,
{
}

/// Subscribing to a kind of push message that was off adds one to the
/// number of active subscriptions, and unsubscribing from one that was on
/// takes one away.
pub proof fn subscription_changes_count_by_one(s: Subscriptions, revision: u8)
    ensures
        s.tightening_result is None ==> (Subscriptions { tightening_result: Some(revision), ..s }).spec_active_count()
            == s.spec_active_count() + 1,
        !s.pset_selection ==> (Subscriptions { pset_selection: true, ..s }).spec_active_count()
            == s.spec_active_count() + 1,
        !s.vehicle_id ==> (Subscriptions { vehicle_id: true, ..s }).spec_active_count()
            == s.spec_active_count() + 1,
        !s.multi_spindle_status ==> (Subscriptions { multi_spindle_status: true, ..s }).spec_active_count()
            == s.spec_active_count() + 1,
        s.multi_spindle_result is None ==> (Subscriptions { multi_spindle_result: Some(revision), ..s }).spec_active_count()
            == s.spec_active_count() + 1,
        s.tightening_result is Some ==> (Subscriptions { tightening_result: None, ..s }).spec_active_count()
            + 1 == s.spec_active_count(),
        s.pset_selection ==> (Subscriptions { pset_selection: false, ..s }).spec_active_count() + 1
            == s.spec_active_count(),
{
}

/// Subscribing is idempotent in count: subscribing to tightening results
/// counts one active subscription for them whatever revision was there, so
/// a second subscription replaces the revision without adding to the count.
pub proof fn resubscribe_keeps_count(s: Subscriptions, revision: u8)
    requires
        s.tightening_result is Some,
    ensures
        (Subscriptions { tightening_result: Some(revision), ..s }).spec_active_count()
            == s.spec_active_count(),
{
}

} // verus!
