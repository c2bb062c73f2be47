//! Identity types shared across the gateway and kernel: caller roles and
//! process ids.

use vstd::prelude::*;
use crate::text::{owned, u64_to_decimal, decimal};

verus! {

/// Caller privilege levels, ordered `Guest < User < Operator < Admin`.
#[derive(Clone, Copy, Debug, PartialEq, Eq, Structural, Hash)]
pub enum Role {
    Guest,
    User,
    Operator,
    Admin,
}

/// Position of a role in the privilege order.
pub open spec fn role_rank(r: Role) -> nat {
    match r {
        Role::Guest => 0,
        Role::User => 1,
        Role::Operator => 2,
        Role::Admin => 3,
    }
}

/// `a` is at least as privileged as `b`.
pub open spec fn role_at_least(a: Role, b: Role) -> bool {
    role_rank(a) >= role_rank(b)
}

/// The lower-case name a role is shown under.
pub open spec fn role_name(r: Role) -> Seq<char> {
    match r {
        Role::Guest => "guest"@,
        Role::User => "user"@,
        Role::Operator => "operator"@,
        Role::Admin => "admin"@,
    }
}

impl Role {
    /// Numeric position in the privilege order (0 for `Guest` … 3 for `Admin`).
    pub fn rank(&self) -> (r: u8)
        ensures
            r as nat == role_rank(*self),
    {
        match self {
            Role::Guest => 0,
            Role::User => 1,
            Role::Operator => 2,
            Role::Admin => 3,
        }
    }

    /// `self >= other` in the privilege order.
    pub fn at_least(&self, other: Role) -> (b: bool)
        ensures
            b == role_at_least(*self, other),
    {
        self.rank() >= other.rank()
    }

    /// The role's display name.
    pub fn name(&self) -> (s: String)
        ensures
            s@ == role_name(*self),
    {
        match self {
            Role::Guest => owned("guest"),
            Role::User => owned("user"),
            Role::Operator => owned("operator"),
            Role::Admin => owned("admin"),
        }
    }
}

/// A process id.
#[derive(Clone, Copy, Debug, PartialEq, Eq, Structural, Hash)]
pub struct Pid(pub u64);

impl Pid {
    pub fn from_u64(n: u64) -> (p: Pid)
        ensures
            p.0 == n,
    {
        Pid(n)
    }

    pub fn as_u64(&self) -> (n: u64)
        ensures
            n == self.0,
    {
        self.0
    }

    /// Decimal rendering of the id.
    pub fn to_decimal(&self) -> (s: String)
        ensures
            s@ == decimal(self.0 as nat),
    {
        u64_to_decimal(self.0)
    }
}

} // verus!
