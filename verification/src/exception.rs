//! The privilege that the processor runs with, without regard to the
//! architecture.

use crate::arch;
use vstd::prelude::*;

verus! {

/// An architecture-independent description of the current privilege level type
#[derive(Eq, PartialEq, Debug, Copy, Clone, Structural)]
pub enum PrivilegeKind {
    /// The lowest level of privilege, where user-level applications reside
    User,
    /// A Kernel, the second-highest level of privilege, and where operating system kernels usually reside.
    Kernel,
    /// A Hypervisor, often the highest level of privilege in the processor.
    /// Usually, only Hypervisors reside at this level.
    Hypervisor,
    /// An unknown privilege level
    Unknown,
}

impl PrivilegeKind {
    /// The kind in words.
    pub open spec fn text(self) -> Seq<char> {
        match self {
            PrivilegeKind::User => "User"@,
            PrivilegeKind::Kernel => "Kernel"@,
            PrivilegeKind::Hypervisor => "Hypervisor"@,
            PrivilegeKind::Unknown => "Unknown"@,
        }
    }

    /// The kind in words.
    pub fn to_string(&self) -> (text: String)
        ensures
            text@ == self.text(),
    {
        match self {
            PrivilegeKind::User => String::from_str("User"),
            PrivilegeKind::Kernel => String::from_str("Kernel"),
            PrivilegeKind::Hypervisor => String::from_str("Hypervisor"),
            PrivilegeKind::Unknown => String::from_str("Unknown"),
        }
    }
}

/// Represents the current privilege level of the processor.
#[derive(Debug, Copy, Clone, PartialEq, Eq)]
pub struct PrivilegeLevel {
    kind: PrivilegeKind,
    name: &'static str,
}

impl PrivilegeLevel {
    /// The level's kind and the name that the architecture gives to it.
    pub closed spec fn view(&self) -> (PrivilegeKind, Seq<char>) {
        (self.kind, self.name@)
    }

    pub fn new(typ: PrivilegeKind, name: &'static str) -> (level: Self)
        ensures
            level@ == (typ, name@),
    {
        Self { kind: typ, name }
    }

    /// The privilege level of a core whose `CurrentEL` register holds
    /// `current_el`.
    pub fn current(current_el: u64) -> (level: PrivilegeLevel)
        ensures
            level@ == arch::exception::privilege_level(current_el),
    {
        arch::exception::current_privilege_level(current_el)
    }

    /// Gets an architecture-dependent name for the current privilege level
    pub fn name(&self) -> (name: &str)
        ensures
            name@ == self@.1,
    {
        self.name
    }

    /// Gets the architecture-independent type of the current privilege level
    pub fn kind(&self) -> (kind: PrivilegeKind)
        ensures
            kind == self@.0,
    {
        self.kind
    }
}

} // verus!
