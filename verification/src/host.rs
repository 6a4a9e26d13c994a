//! The engine side of the integration, reduced to what the plugin touches:
//! one main-thread slot for the client handle, the registration of the
//! per-frame poll system, and the error records that were emitted.

use std::marker::PhantomData;
use std::rc::Rc;
use vstd::prelude::*;

verus! {

/// Stage of the integration's life on one host.
#[derive(Clone, Copy, Debug, PartialEq, Eq, Structural)]
pub enum Phase {
    /// No construction outcome has reached the host yet.
    Uninitialized,
    /// A client handle is published and polled on every tick.
    Active,
    /// Construction failed: the feature is unavailable, one record says why.
    Disabled,
}

/// Mathematical content of a [`Host`].
pub struct HostView<C> {
    /// The handle in the main-thread slot, if any.
    pub client: Option<C>,
    /// Whether the poll system is scheduled to run on every tick.
    pub polling: bool,
    /// The error records emitted so far, oldest first.
    pub log: Seq<Seq<char>>,
}

impl<C> HostView<C> {
    /// A host on which nothing has been registered.
    pub open spec fn empty() -> Self {
        HostView { client: None, polling: false, log: Seq::empty() }
    }

    /// The poll system is scheduled exactly when there is a handle to poll.
    pub open spec fn wf(self) -> bool {
        self.polling <==> self.client is Some
    }

    /// Number of client handles the slot holds: never more than one.
    pub open spec fn handles(self) -> nat {
        if self.client is Some {
            1
        } else {
            0
        }
    }

    /// The host after `client` was put in the slot, replacing what was there,
    /// and the poll system was scheduled.
    pub open spec fn install(self, client: C) -> Self {
        HostView { client: Some(client), polling: true, log: self.log }
    }

    /// The host after one error record was emitted.
    pub open spec fn report(self, record: Seq<char>) -> Self {
        HostView { client: self.client, polling: self.polling, log: self.log.push(record) }
    }

    /// Where the integration stands, read off the host's content.
    pub open spec fn phase(self) -> Phase {
        if self.client is Some {
            Phase::Active
        } else if self.log.len() > 0 {
            Phase::Disabled
        } else {
            Phase::Uninitialized
        }
    }

    /// The handle whose callbacks one tick processes: the published handle
    /// while the poll system is scheduled, none otherwise.
    pub open spec fn due(self) -> Option<C> {
        if self.polling {
            self.client
        } else {
            None
        }
    }

    /// How many times callback processing is invoked over `ticks` ticks:
    /// each tick adds one invocation when a handle is due, none otherwise.
    pub open spec fn invocations(self, ticks: nat) -> nat
        decreases ticks,
    {
        if ticks == 0 {
            0
        } else if self.due() is Some {
            self.invocations((ticks - 1) as nat) + 1
        } else {
            self.invocations((ticks - 1) as nat)
        }
    }
}

/// What the plugin registers with the engine: a single-owner slot for the
/// client handle, the poll system's registration, and the emitted records.
///
/// The handle type `C` is opaque here. The poll system is scheduled for as
/// long as the slot holds a handle.
///
/// The SDK client is not thread-safe, so a host is neither `Send` nor `Sync`,
/// whatever `C` is: it stays on the thread that made it, and the borrow that
/// [`tick`](Host::tick) hands out is the only access to the handle while it
/// lasts.
pub struct Host<C> {
    client: Option<C>,
    log: Vec<String>,
    confined: PhantomData<Rc<()>>,
}

impl<C> View for Host<C> {
    type V = HostView<C>;

    closed spec fn view(&self) -> HostView<C> {
        HostView {
            client: self.client,
            polling: self.client is Some,
            log: Seq::new(self.log@.len(), |i: int| self.log@[i]@),
        }
    }
}

impl<C> Host<C> {
    /// Every host is well formed: its poll system is scheduled exactly when
    /// its slot holds a handle.
    pub proof fn lemma_wf(&self)
        ensures
            self@.wf(),
    {
    }

    /// A host with an empty slot, no poll system and no records.
    pub fn new() -> (host: Self)
        ensures
            host@ == HostView::<C>::empty(),
    {
        let host = Host { client: None, log: Vec::new(), confined: PhantomData };
        assert(host@.log =~= Seq::empty());
        host
    }

    /// Publishes `client` in the slot, replacing any handle that was there,
    /// and schedules the poll system.
    pub fn install(&mut self, client: C)
        ensures
            final(self)@ == old(self)@.install(client),
    {
        let ghost before = self@;
        self.client = Some(client);
        assert(self@.log =~= before.log);
    }

    /// Emits one error record.
    pub fn report(&mut self, record: String)
        ensures
            final(self)@ == old(self)@.report(record@),
    {
        let ghost before = self@;
        self.log.push(record);
        assert(self@.log =~= before.log.push(record@));
    }

    /// The published handle, if there is one.
    pub fn client(&self) -> (client: Option<&C>)
        ensures
            client is Some <==> self@.client is Some,
            client is Some ==> *client->0 == self@.client->0,
    {
        self.client.as_ref()
    }

    /// Whether the poll system is scheduled.
    pub fn is_polling(&self) -> (polling: bool)
        ensures
            polling == self@.polling,
    {
        self.client.is_some()
    }

    /// The error records emitted so far, oldest first.
    pub fn records(&self) -> (records: &Vec<String>)
        ensures
            records@.len() == self@.log.len(),
            forall|i: int| 0 <= i < records@.len() ==> (#[trigger] records@[i])@ == self@.log[i],
    {
        &self.log
    }

    /// Where the integration stands on this host.
    pub fn phase(&self) -> (phase: Phase)
        ensures
            phase == self@.phase(),
    {
        if self.client.is_some() {
            Phase::Active
        } else if self.log.len() > 0 {
            Phase::Disabled
        } else {
            Phase::Uninitialized
        }
    }

    /// One engine tick: yields the handle on which the caller must run the
    /// SDK's callback processing, exactly once, before the next tick. Yields
    /// nothing while the poll system is not scheduled.
    pub fn tick(&mut self) -> (due: Option<&mut C>)
        ensures
            due is Some <==> old(self)@.due() is Some,
            due is Some ==> *due->0 == old(self)@.due()->0,
            due is Some ==> final(self)@ == old(self)@.install(*final(due->0)),
            due is None ==> final(self)@ == old(self)@,
    {
        self.client.as_mut()
    }

    /// Gives the slot's handle to the caller and ends the host.
    pub fn into_client(self) -> (client: Option<C>)
        ensures
            client == self@.client,
    {
        self.client
    }
}

} // verus!
