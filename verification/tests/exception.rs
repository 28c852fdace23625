use em_kernel::arch::exception::current_privilege_level;
use em_kernel::exception::{PrivilegeKind, PrivilegeLevel};

#[test]
fn exception_levels_map_to_privileges() {
    let level = current_privilege_level(0b0000);
    assert_eq!((level.kind(), level.name()), (PrivilegeKind::User, "EL0"));
    let level = current_privilege_level(0b0100);
    assert_eq!((level.kind(), level.name()), (PrivilegeKind::Kernel, "EL1"));
    let level = current_privilege_level(0b1000);
    assert_eq!((level.kind(), level.name()), (PrivilegeKind::Hypervisor, "EL2"));
    let level = current_privilege_level(0b1100);
    assert_eq!((level.kind(), level.name()), (PrivilegeKind::Unknown, "Unknown"));
}

#[test]
fn only_bits_2_and_3_name_the_exception_level() {
    assert_eq!(current_privilege_level(0xFFFF_FFFF_FFFF_FFF7).kind(), PrivilegeKind::Kernel);
    assert_eq!(current_privilege_level(0b0011).kind(), PrivilegeKind::User);
    assert_eq!(current_privilege_level(4).kind(), PrivilegeKind::Kernel);
    assert_eq!(current_privilege_level(1).kind(), PrivilegeKind::User);
    assert_eq!(PrivilegeLevel::current(0b1011), current_privilege_level(0b1000));
}

#[test]
fn privilege_level_keeps_what_it_is_made_of() {
    let level = PrivilegeLevel::new(PrivilegeKind::Hypervisor, "ring -1");
    assert_eq!(level.kind(), PrivilegeKind::Hypervisor);
    assert_eq!(level.name(), "ring -1");
}

#[test]
fn privilege_kinds_in_words() {
    assert_eq!(PrivilegeKind::User.to_string(), "User");
    assert_eq!(PrivilegeKind::Kernel.to_string(), "Kernel");
    assert_eq!(PrivilegeKind::Hypervisor.to_string(), "Hypervisor");
    assert_eq!(PrivilegeKind::Unknown.to_string(), "Unknown");
}
