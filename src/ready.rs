use vstd::prelude::*;

verus! {

/// A set of readiness conditions: readable, writable, peer hang-up, error.
#[derive(Clone, Copy, Debug, PartialEq, Eq, Structural)]
pub struct Ready {
    pub readable: bool,
    pub writable: bool,
    pub hup: bool,
    pub error: bool,
}

impl Ready {
    /// The set with no condition in it.
    pub open spec fn none() -> Ready {
        Ready { readable: false, writable: false, hup: false, error: false }
    }

    pub open spec fn is_none(self) -> bool {
        !self.readable && !self.writable && !self.hup && !self.error
    }

    pub open spec fn union(self, o: Ready) -> Ready {
        Ready {
            readable: self.readable || o.readable,
            writable: self.writable || o.writable,
            hup: self.hup || o.hup,
            error: self.error || o.error,
        }
    }

    pub open spec fn intersection(self, o: Ready) -> Ready {
        Ready {
            readable: self.readable && o.readable,
            writable: self.writable && o.writable,
            hup: self.hup && o.hup,
            error: self.error && o.error,
        }
    }

    pub open spec fn difference(self, o: Ready) -> Ready {
        Ready {
            readable: self.readable && !o.readable,
            writable: self.writable && !o.writable,
            hup: self.hup && !o.hup,
            error: self.error && !o.error,
        }
    }

    /// Every condition of `o` is in `self`.
    pub open spec fn includes(self, o: Ready) -> bool {
        (o.readable ==> self.readable) && (o.writable ==> self.writable) && (o.hup ==> self.hup)
            && (o.error ==> self.error)
    }

    pub fn empty() -> (r: Ready)
        ensures
            r == Ready::none(),
    {
        Ready { readable: false, writable: false, hup: false, error: false }
    }

    pub fn readable() -> (r: Ready)
        ensures
            r == (Ready { readable: true, ..Ready::none() }),
    {
        Ready { readable: true, writable: false, hup: false, error: false }
    }

    pub fn writable() -> (r: Ready)
        ensures
            r == (Ready { writable: true, ..Ready::none() }),
    {
        Ready { readable: false, writable: true, hup: false, error: false }
    }

    pub fn hup() -> (r: Ready)
        ensures
            r == (Ready { hup: true, ..Ready::none() }),
    {
        Ready { readable: false, writable: false, hup: true, error: false }
    }

    pub fn error() -> (r: Ready)
        ensures
            r == (Ready { error: true, ..Ready::none() }),
    {
        Ready { readable: false, writable: false, hup: false, error: true }
    }

    pub fn all() -> (r: Ready)
        ensures
            r == (Ready { readable: true, writable: true, hup: true, error: true }),
    {
        Ready { readable: true, writable: true, hup: true, error: true }
    }

    pub fn is_empty(&self) -> (r: bool)
        ensures
            r == self.is_none(),
    {
        !self.readable && !self.writable && !self.hup && !self.error
    }

    pub fn is_readable(&self) -> (r: bool)
        ensures
            r == self.readable,
    {
        self.readable
    }

    pub fn is_writable(&self) -> (r: bool)
        ensures
            r == self.writable,
    {
        self.writable
    }

    pub fn is_hup(&self) -> (r: bool)
        ensures
            r == self.hup,
    {
        self.hup
    }

    pub fn is_error(&self) -> (r: bool)
        ensures
            r == self.error,
    {
        self.error
    }

    /// The conditions that are in `self` or in `other`.
    pub fn or(&self, other: Ready) -> (r: Ready)
        ensures
            r == self.union(other),
    {
        Ready {
            readable: self.readable || other.readable,
            writable: self.writable || other.writable,
            hup: self.hup || other.hup,
            error: self.error || other.error,
        }
    }

    /// The conditions that are in both `self` and `other`.
    pub fn and(&self, other: Ready) -> (r: Ready)
        ensures
            r == self.intersection(other),
    {
        Ready {
            readable: self.readable && other.readable,
            writable: self.writable && other.writable,
            hup: self.hup && other.hup,
            error: self.error && other.error,
        }
    }

    pub fn contains(&self, other: Ready) -> (r: bool)
        ensures
            r == self.includes(other),
    {
        (!other.readable || self.readable) && (!other.writable || self.writable) && (!other.hup
            || self.hup) && (!other.error || self.error)
    }

    pub fn insert(&mut self, other: Ready)
        ensures
            *final(self) == old(self).union(other),
    {
        *self = self.or(other);
    }

    pub fn remove(&mut self, other: Ready)
        ensures
            *final(self) == old(self).difference(other),
    {
        self.readable = self.readable && !other.readable;
        self.writable = self.writable && !other.writable;
        self.hup = self.hup && !other.hup;
        self.error = self.error && !other.error;
    }
}

} // verus!
