//! The exception levels of AArch64.

use crate::arch::registers::lemma_bitmasks;
use crate::exception::{PrivilegeKind, PrivilegeLevel};
use vstd::prelude::*;

verus! {

/// The exception level that a `CurrentEL` register with this word names: the
/// two bits from bit 2 on.
pub open spec fn exception_level(current_el: u64) -> u64 {
    (current_el >> 2) & 0b11
}

/// What an exception level means to the kernel, and its name.
pub open spec fn privilege_level(current_el: u64) -> (PrivilegeKind, Seq<char>) {
    let level = exception_level(current_el);
    if level == 0 {
        (PrivilegeKind::User, "EL0"@)
    } else if level == 1 {
        (PrivilegeKind::Kernel, "EL1"@)
    } else if level == 2 {
        (PrivilegeKind::Hypervisor, "EL2"@)
    } else {
        (PrivilegeKind::Unknown, "Unknown"@)
    }
}

/// The privilege level of a core whose `CurrentEL` register holds
/// `current_el`.
pub fn current_privilege_level(current_el: u64) -> (level: PrivilegeLevel)
    ensures
        level@ == privilege_level(current_el),
{
    let el = crate::arch::registers::current_el(current_el);
    proof {
        lemma_bitmasks();
        assert((current_el & (0x3u64 << 2)) >> 2 == (current_el >> 2) & 0b11) by (bit_vector);
    }
    match el {
        Some(0) => PrivilegeLevel::new(PrivilegeKind::User, "EL0"),
        Some(1) => PrivilegeLevel::new(PrivilegeKind::Kernel, "EL1"),
        Some(2) => PrivilegeLevel::new(PrivilegeKind::Hypervisor, "EL2"),
        _ => PrivilegeLevel::new(PrivilegeKind::Unknown, "Unknown"),
    }
}

} // verus!
