//! Values that select a variant of a call: shutdown directions, accept flags.
use vstd::prelude::*;

verus! {

/// Which half of a connection a shutdown stops.
#[derive(Clone, Copy, Debug, PartialEq, Eq, Structural)]
pub enum ShutdownType {
    /// Stops any further receives.
    Receive,
    /// Stops any further sends.
    Send,
    /// Stops both sends and receives.
    Both,
}

impl ShutdownType {
    /// The direction code that the OS takes: 0, 1 or 2.
    pub open spec fn code(self) -> i32 {
        match self {
            ShutdownType::Receive => 0i32,
            ShutdownType::Send => 1i32,
            ShutdownType::Both => 2i32,
        }
    }
}

impl From<ShutdownType> for i32 {
    fn from(direction: ShutdownType) -> (code: i32) {
        match direction {
            ShutdownType::Receive => 0,
            ShutdownType::Send => 1,
            ShutdownType::Both => 2,
        }
    }
}

impl vstd::std_specs::convert::FromSpecImpl<ShutdownType> for i32 {
    open spec fn obeys_from_spec() -> bool {
        true
    }

    open spec fn from_spec(direction: ShutdownType) -> i32 {
        direction.code()
    }
}

/// The value of the non-blocking accept flag.
pub const SOCK_NONBLOCK: i32 = 0o4000;

/// The value of the non-inheritable accept flag.
pub const SOCK_CLOEXEC: i32 = 0o2000000;

/// What a newly accepted descriptor is to be like. A set of two flags.
#[derive(Clone, Copy, Debug, PartialEq, Eq, Structural)]
pub struct AcceptFlags {
    non_blocking: bool,
    non_inheritable: bool,
}

/// The number that stands for a set of the two flags: the sum of the values of
/// those that are in it.
pub open spec fn flag_bits(non_blocking: bool, non_inheritable: bool) -> int {
    (if non_blocking {
        SOCK_NONBLOCK as int
    } else {
        0
    }) + (if non_inheritable {
        SOCK_CLOEXEC as int
    } else {
        0
    })
}

impl AcceptFlags {
    /// Whether the non-blocking flag is in the set.
    pub closed spec fn has_non_blocking(&self) -> bool {
        self.non_blocking
    }

    /// Whether the non-inheritable flag is in the set.
    pub closed spec fn has_non_inheritable(&self) -> bool {
        self.non_inheritable
    }

    /// The number that stands for this set.
    pub open spec fn spec_bits(&self) -> int {
        flag_bits(self.has_non_blocking(), self.has_non_inheritable())
    }

    /// The set with neither flag.
    pub fn empty() -> (r: AcceptFlags)
        ensures
            !r.has_non_blocking(),
            !r.has_non_inheritable(),
    {
        AcceptFlags { non_blocking: false, non_inheritable: false }
    }

    /// The set of one flag: the accepted descriptor is non-blocking.
    pub fn non_blocking() -> (r: AcceptFlags)
        ensures
            r.has_non_blocking(),
            !r.has_non_inheritable(),
    {
        AcceptFlags { non_blocking: true, non_inheritable: false }
    }

    /// The set of one flag: processes created later do not inherit the
    /// accepted descriptor.
    pub fn non_inheritable() -> (r: AcceptFlags)
        ensures
            !r.has_non_blocking(),
            r.has_non_inheritable(),
    {
        AcceptFlags { non_blocking: false, non_inheritable: true }
    }

    /// The set with both flags.
    pub fn all() -> (r: AcceptFlags)
        ensures
            r.has_non_blocking(),
            r.has_non_inheritable(),
    {
        AcceptFlags { non_blocking: true, non_inheritable: true }
    }

    /// The number that stands for this set, as the OS takes it.
    pub fn bits(&self) -> (r: i32)
        ensures
            r == self.spec_bits(),
    {
        let low: i32 = if self.non_blocking {
            SOCK_NONBLOCK
        } else {
            0
        };
        let high: i32 = if self.non_inheritable {
            SOCK_CLOEXEC
        } else {
            0
        };
        low + high
    }

    /// The set that `bits` stands for, if it stands for one.
    pub fn from_bits(bits: i32) -> (r: Option<AcceptFlags>)
        ensures
            match r {
                Some(flags) => flags.spec_bits() == bits,
                None => forall|a: bool, b: bool| flag_bits(a, b) != bits,
            },
    {
        if bits == 0 {
            Some(AcceptFlags { non_blocking: false, non_inheritable: false })
        } else if bits == SOCK_NONBLOCK {
            Some(AcceptFlags { non_blocking: true, non_inheritable: false })
        } else if bits == SOCK_CLOEXEC {
            Some(AcceptFlags { non_blocking: false, non_inheritable: true })
        } else if bits == SOCK_NONBLOCK + SOCK_CLOEXEC {
            Some(AcceptFlags { non_blocking: true, non_inheritable: true })
        } else {
            None
        }
    }

    /// Whether neither flag is in the set.
    pub fn is_empty(&self) -> (r: bool)
        ensures
            r == (!self.has_non_blocking() && !self.has_non_inheritable()),
    {
        !self.non_blocking && !self.non_inheritable
    }

    /// Whether every flag of `other` is in this set.
    pub fn contains(&self, other: AcceptFlags) -> (r: bool)
        ensures
            r == ((other.has_non_blocking() ==> self.has_non_blocking()) && (
            other.has_non_inheritable() ==> self.has_non_inheritable())),
    {
        (!other.non_blocking || self.non_blocking) && (!other.non_inheritable
            || self.non_inheritable)
    }

    /// The set of the flags that are in this set or in `other`.
    pub fn union(&self, other: AcceptFlags) -> (r: AcceptFlags)
        ensures
            r.has_non_blocking() == (self.has_non_blocking() || other.has_non_blocking()),
            r.has_non_inheritable() == (self.has_non_inheritable()
                || other.has_non_inheritable()),
    {
        AcceptFlags {
            non_blocking: self.non_blocking || other.non_blocking,
            non_inheritable: self.non_inheritable || other.non_inheritable,
        }
    }

    /// Whether a descriptor accepted under these flags is to block.
    pub fn blocking(&self) -> (r: bool)
        ensures
            r == !self.has_non_blocking(),
    {
        !self.contains(AcceptFlags::non_blocking())
    }

    /// Whether processes created later are to inherit a descriptor accepted
    /// under these flags.
    pub fn inheritable(&self) -> (r: bool)
        ensures
            r == !self.has_non_inheritable(),
    {
        !self.contains(AcceptFlags::non_inheritable())
    }
}

} // verus!
