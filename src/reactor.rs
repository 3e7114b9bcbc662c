use vstd::prelude::*;
use crate::poll_opt::PollOpt;
use crate::ready::Ready;
use crate::registry::{Registration, Registry, RegistryError};
use crate::token::Token;

verus! {

/// What one raw poller event, `observed` on `handle`, delivers to the handler
/// under the live registrations `m`: nothing for a handle that is not live,
/// nothing when none of the observed conditions is of interest, and otherwise
/// the registration's token with the observed conditions of interest.
pub open spec fn delivery(m: Map<usize, Registration>, handle: usize, observed: Ready) -> Option<
    (Token, Ready),
> {
    if m.contains_key(handle) {
        let d = observed.intersection(m[handle].interest);
        if d.is_none() {
            None
        } else {
            Some((m[handle].token, d))
        }
    } else {
        None
    }
}

/// The live registrations after that event: a one-shot registration that was
/// delivered is disarmed (its interest emptied) until it is reregistered.
pub open spec fn after_delivery(m: Map<usize, Registration>, handle: usize, observed: Ready) -> Map<
    usize,
    Registration,
> {
    if delivery(m, handle, observed) is Some && m[handle].mode == PollOpt::Oneshot {
        m.insert(handle, Registration { interest: Ready::none(), ..m[handle] })
    } else {
        m
    }
}

/// The decision half of an event loop: the registry of live registrations and
/// whether the loop is to keep running. The owner of the poller runs the loop:
/// it hands each raw event to `resolve` and calls the handler with what comes
/// back, and polls again while `is_running` holds.
pub struct Reactor {
    registry: Registry,
    running: bool,
}

impl Reactor {
    /// The live registrations, by native handle.
    pub closed spec fn registrations(self) -> Map<usize, Registration> {
        self.registry@
    }

    pub closed spec fn running(self) -> bool {
        self.running
    }

    pub fn new() -> (r: Reactor)
        ensures
            r.registrations() == Map::<usize, Registration>::empty(),
            r.running(),
    {
        Reactor { registry: Registry::new(), running: true }
    }

    pub fn register(&mut self, handle: usize, token: Token, interest: Ready, mode: PollOpt) -> (r:
        Result<(), RegistryError>)
        ensures
            final(self).running() == old(self).running(),
            old(self).registrations().contains_key(handle) ==> r == Err::<(), RegistryError>(
                RegistryError::AlreadyRegistered,
            ) && final(self).registrations() == old(self).registrations(),
            !old(self).registrations().contains_key(handle) ==> r is Ok
                && final(self).registrations() == old(self).registrations().insert(
                handle,
                Registration { token, interest, mode },
            ),
    {
        self.registry.register(handle, token, interest, mode)
    }

    /// Completes a registration once the poller has answered for `handle`;
    /// nothing is recorded before that answer, so a refusal leaves the
    /// registrations as they were. A refusal of a live handle is a double
    /// registration. An acceptance means the poller holds no registration of
    /// the handle: an entry under it was left by a resource that was closed
    /// without being deregistered, and is replaced.
    pub fn register_polled(
        &mut self,
        handle: usize,
        token: Token,
        interest: Ready,
        mode: PollOpt,
        poller_accepted: bool,
    ) -> (r: Result<(), RegistryError>)
        ensures
            final(self).running() == old(self).running(),
            !poller_accepted ==> final(self).registrations() == old(self).registrations(),
            !poller_accepted ==> r == Err::<(), RegistryError>(
                if old(self).registrations().contains_key(handle) {
                    RegistryError::AlreadyRegistered
                } else {
                    RegistryError::Refused
                },
            ),
            poller_accepted ==> r is Ok && final(self).registrations() == old(
                self,
            ).registrations().insert(handle, Registration { token, interest, mode }),
    {
        if !poller_accepted {
            if self.registry.is_registered(handle) {
                return Err(RegistryError::AlreadyRegistered);
            } else {
                return Err(RegistryError::Refused);
            }
        }
        let _ = self.registry.deregister(handle);
        let _ = self.registry.register(handle, token, interest, mode);
        Ok(())
    }

    pub fn reregister(&mut self, handle: usize, interest: Ready, mode: PollOpt) -> (r: Result<
        (),
        RegistryError,
    >)
        ensures
            final(self).running() == old(self).running(),
            !old(self).registrations().contains_key(handle) ==> r == Err::<(), RegistryError>(
                RegistryError::NotRegistered,
            ) && final(self).registrations() == old(self).registrations(),
            old(self).registrations().contains_key(handle) ==> r is Ok
                && final(self).registrations() == old(self).registrations().insert(
                handle,
                Registration { token: old(self).registrations()[handle].token, interest, mode },
            ),
    {
        self.registry.reregister(handle, interest, mode)
    }

    /// Completes a change of interest and mode once the poller has answered
    /// for `handle`. An unknown handle is refused whatever the poller said;
    /// a refusal by the poller leaves the registrations as they were.
    pub fn reregister_polled(
        &mut self,
        handle: usize,
        interest: Ready,
        mode: PollOpt,
        poller_accepted: bool,
    ) -> (r: Result<(), RegistryError>)
        ensures
            final(self).running() == old(self).running(),
            !old(self).registrations().contains_key(handle) ==> r == Err::<(), RegistryError>(
                RegistryError::NotRegistered,
            ) && final(self).registrations() == old(self).registrations(),
            old(self).registrations().contains_key(handle) && !poller_accepted ==> r == Err::<
                (),
                RegistryError,
            >(RegistryError::Refused) && final(self).registrations() == old(self).registrations(),
            old(self).registrations().contains_key(handle) && poller_accepted ==> r is Ok
                && final(self).registrations() == old(self).registrations().insert(
                handle,
                Registration { token: old(self).registrations()[handle].token, interest, mode },
            ),
    {
        if !self.registry.is_registered(handle) {
            return Err(RegistryError::NotRegistered);
        }
        if !poller_accepted {
            return Err(RegistryError::Refused);
        }
        self.registry.reregister(handle, interest, mode)
    }

    /// Removes the registration of `handle`; removing an absent one does
    /// nothing. Says whether there was one.
    pub fn deregister(&mut self, handle: usize) -> (r: bool)
        ensures
            final(self).running() == old(self).running(),
            r == old(self).registrations().contains_key(handle),
            final(self).registrations() == old(self).registrations().remove(handle),
    {
        self.registry.deregister(handle)
    }

    pub fn get(&self, handle: usize) -> (r: Option<Registration>)
        ensures
            r == (if self.registrations().contains_key(handle) {
                Some(self.registrations()[handle])
            } else {
                None
            }),
    {
        self.registry.get(handle)
    }

    /// Marks the loop as running, at the start of a run.
    pub fn start(&mut self)
        ensures
            final(self).running(),
            final(self).registrations() == old(self).registrations(),
    {
        self.running = true;
    }

    /// Asks the loop to stop once the current batch of events is handled.
    pub fn shutdown(&mut self)
        ensures
            !final(self).running(),
            final(self).registrations() == old(self).registrations(),
    {
        self.running = false;
    }

    pub fn is_running(&self) -> (r: bool)
        ensures
            r == self.running(),
    {
        self.running
    }

    /// Decides what one raw poller event delivers. The registration is looked
    /// up at the moment of delivery, so a handle deregistered earlier in the
    /// same batch delivers nothing.
    pub fn resolve(&mut self, handle: usize, observed: Ready) -> (r: Option<(Token, Ready)>)
        ensures
            r == delivery(old(self).registrations(), handle, observed),
            final(self).registrations() == after_delivery(
                old(self).registrations(),
                handle,
                observed,
            ),
            final(self).running() == old(self).running(),
    {
        match self.registry.get(handle) {
            None => None,
            Some(reg) => {
                let d = observed.and(reg.interest);
                if d.is_empty() {
                    None
                } else {
                    if reg.mode.is_oneshot() {
                        let _ = self.registry.reregister(handle, Ready::empty(), reg.mode);
                    }
                    Some((reg.token, d))
                }
            },
        }
    }
}

/// Every delivered notification carries the token of the live registration of
/// its handle, and a non-empty set of conditions that were both observed by
/// the poller and asked for by the registration.
pub proof fn lemma_no_spurious_delivery(m: Map<usize, Registration>, handle: usize, observed: Ready)
    ensures
        delivery(m, handle, observed) matches Some((t, d)) ==> m.contains_key(handle) && t
            == m[handle].token && !d.is_none() && observed.includes(d)
            && m[handle].interest.includes(d),
{
}

/// A handle that has been deregistered never delivers again, whatever the
/// poller reports for it, even when its token has been given to a registration
/// of another handle.
pub proof fn lemma_deregistered_never_fires(
    m: Map<usize, Registration>,
    handle: usize,
    other: usize,
    reg: Registration,
    observed: Ready,
)
    requires
        other != handle,
    ensures
        delivery(m.remove(handle), handle, observed) is None,
        delivery(m.remove(handle).insert(other, reg), handle, observed) is None,
{
}

/// A one-shot registration delivers once: after it fired, no further event
/// on its handle is delivered until it is reregistered.
pub proof fn lemma_oneshot_fires_once(
    m: Map<usize, Registration>,
    handle: usize,
    first: Ready,
    later: Ready,
)
    requires
        delivery(m, handle, first) is Some,
        m[handle].mode == PollOpt::Oneshot,
    ensures
        delivery(after_delivery(m, handle, first), handle, later) is None,
{
}

/// A peer hang-up observed on a live registration that asked for it is
/// delivered as one notification for that event, with the hang-up bit set;
/// under edge or level mode the registration stays armed.
pub proof fn lemma_hup_delivered(m: Map<usize, Registration>, handle: usize, observed: Ready)
    requires
        m.contains_key(handle),
        observed.hup,
        m[handle].interest.hup,
    ensures
        delivery(m, handle, observed) == Some(
            (m[handle].token, observed.intersection(m[handle].interest)),
        ),
        delivery(m, handle, observed)->Some_0.1.hup,
        m[handle].mode != PollOpt::Oneshot ==> after_delivery(m, handle, observed) == m,
{
}

} // verus!
