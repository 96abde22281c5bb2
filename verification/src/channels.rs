//! A registry of broadcast channels, one per event type, created lazily on
//! the first request for a sender or receiver. Components that do not know
//! about each other can obtain the sender or a receiver for a shared event
//! type on demand; `try_send` publishes only where a channel already exists.

use vstd::prelude::*;

use crate::bus::{Bus, BusReceiver, SendError, TryRecvResult, DEFAULT_BUS_CAPACITY};
use crate::report::{Update, UserReport};

verus! {

/// One lazily created broadcast channel per event type.
pub struct AnyChannels {
    updates: Option<Bus<Update>>,
    user_reports: Option<Bus<UserReport>>,
    capacity: usize,
}

impl AnyChannels {
    /// The `Update` channel, if one was created.
    pub closed spec fn updates_opt(self) -> Option<Bus<Update>> {
        self.updates
    }

    /// The `UserReport` channel, if one was created.
    pub closed spec fn user_reports_opt(self) -> Option<Bus<UserReport>> {
        self.user_reports
    }

    /// The backlog capacity every channel is created with.
    pub closed spec fn capacity_spec(self) -> nat {
        self.capacity as nat
    }

    /// Structural invariant: each existing channel is well formed and was
    /// created with the registry's capacity.
    pub open spec fn wf(self) -> bool {
        &&& self.capacity_spec() >= 1
        &&& (self.updates_opt() matches Some(b) ==> b.wf() && b.capacity_spec()
            == self.capacity_spec())
        &&& (self.user_reports_opt() matches Some(b) ==> b.wf() && b.capacity_spec()
            == self.capacity_spec())
    }

    /// A registry with no channels yet, using the default capacity.
    pub fn new() -> (r: AnyChannels)
        ensures
            r.wf(),
            r.updates_opt() is None,
            r.user_reports_opt() is None,
            r.capacity_spec() == DEFAULT_BUS_CAPACITY,
    {
        AnyChannels { updates: None, user_reports: None, capacity: DEFAULT_BUS_CAPACITY }
    }

    /// A registry with no channels yet and the given per-channel capacity.
    pub fn with_capacity(capacity: usize) -> (r: AnyChannels)
        requires
            capacity >= 1,
        ensures
            r.wf(),
            r.updates_opt() is None,
            r.user_reports_opt() is None,
            r.capacity_spec() == capacity,
    {
        AnyChannels { updates: None, user_reports: None, capacity }
    }

    /// The sender side of the `Update` channel, creating the channel if none
    /// exists yet.
    pub fn update_sender(&mut self) -> (bus: &mut Bus<Update>)
        requires
            old(self).wf(),
        ensures
            old(self).updates_opt() matches Some(b) ==> *bus == b,
            old(self).updates_opt() is None ==> {
                &&& bus.wf()
                &&& bus.history() == Seq::<Update>::empty()
                &&& bus.receiver_count_spec() == 0
                &&& bus.capacity_spec() == old(self).capacity_spec()
            },
            final(self).updates_opt() == Some(*final(bus)),
            final(self).user_reports_opt() == old(self).user_reports_opt(),
            final(self).capacity_spec() == old(self).capacity_spec(),
    {
        self.updates.get_or_insert(Bus::new(self.capacity))
    }

    /// The sender side of the `UserReport` channel, creating the channel if
    /// none exists yet.
    pub fn report_sender(&mut self) -> (bus: &mut Bus<UserReport>)
        requires
            old(self).wf(),
        ensures
            old(self).user_reports_opt() matches Some(b) ==> *bus == b,
            old(self).user_reports_opt() is None ==> {
                &&& bus.wf()
                &&& bus.history() == Seq::<UserReport>::empty()
                &&& bus.receiver_count_spec() == 0
                &&& bus.capacity_spec() == old(self).capacity_spec()
            },
            final(self).user_reports_opt() == Some(*final(bus)),
            final(self).updates_opt() == old(self).updates_opt(),
            final(self).capacity_spec() == old(self).capacity_spec(),
    {
        self.user_reports.get_or_insert(Bus::new(self.capacity))
    }

    /// A new receiver for `Update` events, creating the channel if none
    /// exists yet; it sees events published from this point onward.
    pub fn update_receiver(&mut self) -> (r: BusReceiver)
        requires
            old(self).wf(),
            old(self).updates_opt() matches Some(b) ==> b.receiver_count_spec() < u64::MAX,
        ensures
            final(self).wf(),
            final(self).user_reports_opt() == old(self).user_reports_opt(),
            final(self).capacity_spec() == old(self).capacity_spec(),
            match old(self).updates_opt() {
                Some(b) => {
                    &&& final(self).updates_opt() matches Some(nb) && nb.history() == b.history()
                        && nb.receiver_count_spec() == b.receiver_count_spec() + 1
                    &&& r.next_seq as nat == b.history().len()
                },
                None => {
                    &&& final(self).updates_opt() matches Some(nb) && nb.history()
                        == Seq::<Update>::empty() && nb.receiver_count_spec() == 1
                    &&& r.next_seq == 0
                },
            },
    {
        let bus = self.updates.get_or_insert(Bus::new(self.capacity));
        bus.subscribe()
    }

    /// A new receiver for `UserReport` events, creating the channel if none
    /// exists yet; it sees events published from this point onward.
    pub fn report_receiver(&mut self) -> (r: BusReceiver)
        requires
            old(self).wf(),
            old(self).user_reports_opt() matches Some(b) ==> b.receiver_count_spec() < u64::MAX,
        ensures
            final(self).wf(),
            final(self).updates_opt() == old(self).updates_opt(),
            final(self).capacity_spec() == old(self).capacity_spec(),
            match old(self).user_reports_opt() {
                Some(b) => {
                    &&& final(self).user_reports_opt() matches Some(nb) && nb.history()
                        == b.history() && nb.receiver_count_spec() == b.receiver_count_spec() + 1
                    &&& r.next_seq as nat == b.history().len()
                },
                None => {
                    &&& final(self).user_reports_opt() matches Some(nb) && nb.history()
                        == Seq::<UserReport>::empty() && nb.receiver_count_spec() == 1
                    &&& r.next_seq == 0
                },
            },
    {
        let bus = self.user_reports.get_or_insert(Bus::new(self.capacity));
        bus.subscribe()
    }

    /// Publish an `Update` with try semantics: only if its channel already
    /// exists — no channel is fabricated just to publish into the void — and
    /// the error carries the value back exactly when none exists. With a
    /// channel, the value is delivered to however many receivers there are,
    /// having none included: `Ok(0)` then, and the value is not retained.
    pub fn try_send_update(&mut self, value: Update) -> (r: Result<u64, SendError<Update>>)
        requires
            old(self).wf(),
            old(self).updates_opt() matches Some(b) ==> b.history().len() < u64::MAX,
        ensures
            final(self).wf(),
            final(self).user_reports_opt() == old(self).user_reports_opt(),
            final(self).capacity_spec() == old(self).capacity_spec(),
            match old(self).updates_opt() {
                None => {
                    &&& r matches Err(e) && e.0 == value
                    &&& final(self).updates_opt() is None
                },
                Some(b) => {
                    &&& r == Ok::<u64, SendError<Update>>(b.receiver_count_spec())
                    &&& final(self).updates_opt() matches Some(nb)
                        && nb.receiver_count_spec() == b.receiver_count_spec()
                    &&& b.receiver_count_spec() == 0 ==> {
                        final(self).updates_opt() matches Some(nb) && nb.history() == b.history()
                    }
                    &&& b.receiver_count_spec() > 0 ==> {
                        final(self).updates_opt() matches Some(nb) && nb.history()
                            == b.history().push(value)
                    }
                },
            },
    {
        match &mut self.updates {
            Some(bus) => Ok(bus.try_send(value)),
            None => Err(SendError(value)),
        }
    }

    /// Publish a `UserReport` with try semantics: only if its channel
    /// already exists; having no receivers is not an error.
    pub fn try_send_report(&mut self, value: UserReport) -> (r: Result<
        u64,
        SendError<UserReport>,
    >)
        requires
            old(self).wf(),
            old(self).user_reports_opt() matches Some(b) ==> b.history().len() < u64::MAX,
        ensures
            final(self).wf(),
            final(self).updates_opt() == old(self).updates_opt(),
            final(self).capacity_spec() == old(self).capacity_spec(),
            match old(self).user_reports_opt() {
                None => {
                    &&& r matches Err(e) && e.0 == value
                    &&& final(self).user_reports_opt() is None
                },
                Some(b) => {
                    &&& r == Ok::<u64, SendError<UserReport>>(b.receiver_count_spec())
                    &&& final(self).user_reports_opt() matches Some(nb)
                        && nb.receiver_count_spec() == b.receiver_count_spec()
                    &&& b.receiver_count_spec() == 0 ==> {
                        final(self).user_reports_opt() matches Some(nb) && nb.history()
                            == b.history()
                    }
                    &&& b.receiver_count_spec() > 0 ==> {
                        final(self).user_reports_opt() matches Some(nb) && nb.history()
                            == b.history().push(value)
                    }
                },
            },
    {
        match &mut self.user_reports {
            Some(bus) => Ok(bus.try_send(value)),
            None => Err(SendError(value)),
        }
    }

    /// How many receivers the `Update` channel has; 0 when none exists.
    pub fn update_receiver_count(&self) -> (r: u64)
        ensures
            r == (match self.updates_opt() {
                Some(b) => b.receiver_count_spec(),
                None => 0u64,
            }),
    {
        match &self.updates {
            Some(bus) => bus.receiver_count(),
            None => 0,
        }
    }

    /// How many receivers the `UserReport` channel has; 0 when none exists.
    pub fn report_receiver_count(&self) -> (r: u64)
        ensures
            r == (match self.user_reports_opt() {
                Some(b) => b.receiver_count_spec(),
                None => 0u64,
            }),
    {
        match &self.user_reports {
            Some(bus) => bus.receiver_count(),
            None => 0,
        }
    }

    /// Poll a receiver of the `Update` channel; with no channel there is
    /// nothing to receive.
    pub fn try_recv_update<'a>(&'a self, rx: &mut BusReceiver) -> (r: TryRecvResult<'a, Update>)
        requires
            self.wf(),
        ensures
            match self.updates_opt() {
                None => r is Empty && *final(rx) == *old(rx),
                Some(b) => ({
                    let len = b.history().len();
                    let cap = b.capacity_spec();
                    let cursor = old(rx).next_seq as nat;
                    let oldest = crate::bus::oldest_retained(len, cap);
                    if cursor < oldest {
                        &&& r matches TryRecvResult::Lagged(n) && n as nat == crate::bus::lag_of(
                            len,
                            cap,
                            cursor,
                        )
                        &&& final(rx).next_seq as nat == oldest
                    } else if cursor >= len {
                        &&& r is Empty
                        &&& *final(rx) == *old(rx)
                    } else {
                        &&& r matches TryRecvResult::Message(m) && *m == b.history()[cursor as int]
                        &&& final(rx).next_seq == old(rx).next_seq + 1
                    }
                }),
            },
    {
        match &self.updates {
            Some(bus) => bus.try_recv(rx),
            None => TryRecvResult::Empty,
        }
    }

    /// Poll a receiver of the `UserReport` channel; with no channel there is
    /// nothing to receive.
    pub fn try_recv_report<'a>(&'a self, rx: &mut BusReceiver) -> (r: TryRecvResult<
        'a,
        UserReport,
    >)
        requires
            self.wf(),
        ensures
            match self.user_reports_opt() {
                None => r is Empty && *final(rx) == *old(rx),
                Some(b) => ({
                    let len = b.history().len();
                    let cap = b.capacity_spec();
                    let cursor = old(rx).next_seq as nat;
                    let oldest = crate::bus::oldest_retained(len, cap);
                    if cursor < oldest {
                        &&& r matches TryRecvResult::Lagged(n) && n as nat == crate::bus::lag_of(
                            len,
                            cap,
                            cursor,
                        )
                        &&& final(rx).next_seq as nat == oldest
                    } else if cursor >= len {
                        &&& r is Empty
                        &&& *final(rx) == *old(rx)
                    } else {
                        &&& r matches TryRecvResult::Message(m) && *m == b.history()[cursor as int]
                        &&& final(rx).next_seq == old(rx).next_seq + 1
                    }
                }),
            },
    {
        match &self.user_reports {
            Some(bus) => bus.try_recv(rx),
            None => TryRecvResult::Empty,
        }
    }
}

} // verus!
