use vstd::prelude::*;
use crate::poll_opt::PollOpt;
use crate::ready::Ready;
use crate::token::Token;

verus! {

/// One live registration: the caller's token, the conditions of interest and
/// the triggering mode.
#[derive(Clone, Copy, Debug, PartialEq, Eq, Structural)]
pub struct Registration {
    pub token: Token,
    pub interest: Ready,
    pub mode: PollOpt,
}

/// A misuse of the registry.
#[derive(Clone, Copy, Debug, PartialEq, Eq, Structural)]
pub enum RegistryError {
    /// The handle already has a live registration.
    AlreadyRegistered,
    /// The handle has no live registration.
    NotRegistered,
    /// The poller refused the handle.
    Refused,
}

/// The live registrations, one at most per native handle, held in an arena
/// indexed by the handle.
pub struct Registry {
    slots: Vec<Option<Registration>>,
}

impl View for Registry {
    type V = Map<usize, Registration>;

    closed spec fn view(&self) -> Map<usize, Registration> {
        Map::new(
            |h: usize| (h as int) < self.slots@.len() && self.slots@[h as int] is Some,
            |h: usize| self.slots@[h as int]->Some_0,
        )
    }
}

impl Registry {
    pub fn new() -> (r: Registry)
        ensures
            r@ == Map::<usize, Registration>::empty(),
    {
        let r = Registry { slots: Vec::new() };
        assert(r@ =~= Map::<usize, Registration>::empty());
        r
    }

    /// The registration of `handle`, if it is live.
    pub fn get(&self, handle: usize) -> (r: Option<Registration>)
        ensures
            r == (if self@.contains_key(handle) {
                Some(self@[handle])
            } else {
                None
            }),
    {
        if handle < self.slots.len() {
            self.slots[handle]
        } else {
            None
        }
    }

    pub fn is_registered(&self, handle: usize) -> (r: bool)
        ensures
            r == self@.contains_key(handle),
    {
        handle < self.slots.len() && self.slots[handle].is_some()
    }

    /// Records a new registration for `handle`; a handle that is already
    /// registered is refused and the registry is left unchanged.
    pub fn register(&mut self, handle: usize, token: Token, interest: Ready, mode: PollOpt) -> (r:
        Result<(), RegistryError>)
        ensures
            old(self)@.contains_key(handle) ==> r == Err::<(), RegistryError>(
                RegistryError::AlreadyRegistered,
            ) && final(self)@ == old(self)@,
            !old(self)@.contains_key(handle) ==> r is Ok && final(self)@ == old(self)@.insert(
                handle,
                Registration { token, interest, mode },
            ),
    {
        if self.is_registered(handle) {
            return Err(RegistryError::AlreadyRegistered);
        }
        let ghost before = self@;
        while self.slots.len() <= handle
            invariant
                self@ == before,
                !self@.contains_key(handle),
            decreases handle + 1 - self.slots.len(),
        {
            self.slots.push(None);
            assert(self@ =~= before);
        }
        self.slots.set(handle, Some(Registration { token, interest, mode }));
        assert(self@ =~= before.insert(handle, Registration { token, interest, mode }));
        Ok(())
    }

    /// Replaces the interest and mode of a live registration, keeping its
    /// token; an unknown handle is refused and the registry is left unchanged.
    pub fn reregister(&mut self, handle: usize, interest: Ready, mode: PollOpt) -> (r: Result<
        (),
        RegistryError,
    >)
        ensures
            !old(self)@.contains_key(handle) ==> r == Err::<(), RegistryError>(
                RegistryError::NotRegistered,
            ) && final(self)@ == old(self)@,
            old(self)@.contains_key(handle) ==> r is Ok && final(self)@ == old(self)@.insert(
                handle,
                Registration { token: old(self)@[handle].token, interest, mode },
            ),
    {
        match self.get(handle) {
            None => Err(RegistryError::NotRegistered),
            Some(reg) => {
                let ghost before = self@;
                self.slots.set(handle, Some(Registration { token: reg.token, interest, mode }));
                assert(self@ =~= before.insert(
                    handle,
                    Registration { token: reg.token, interest, mode },
                ));
                Ok(())
            },
        }
    }

    /// Removes the registration of `handle`, if any; says whether there was one.
    pub fn deregister(&mut self, handle: usize) -> (r: bool)
        ensures
            r == old(self)@.contains_key(handle),
            final(self)@ == old(self)@.remove(handle),
    {
        if !self.is_registered(handle) {
            assert(self@ =~= self@.remove(handle));
            return false;
        }
        let ghost before = self@;
        self.slots.set(handle, None);
        assert(self@ =~= before.remove(handle));
        true
    }
}

} // verus!
