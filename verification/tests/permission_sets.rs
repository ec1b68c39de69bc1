use sparkle_convenience::error::UserError;
use sparkle_convenience::interaction::{check_granted, InteractionHandle, InteractionKind};
use sparkle_convenience::permissions::PermissionSet;

const ADD_REACTIONS: u64 = 1 << 6;
const SEND_MESSAGES: u64 = 1 << 11;
const MANAGE_MESSAGES: u64 = 1 << 13;

fn handle(app_permissions: Option<u64>) -> InteractionHandle {
    InteractionHandle::new(
        1,
        String::from("token"),
        InteractionKind::Command,
        app_permissions.map(PermissionSet::from_bits),
    )
}

fn check(app_permissions: Option<u64>, required: u64) -> Result<(), UserError<u8>> {
    handle(app_permissions).check_permissions(PermissionSet::from_bits(required))
}

#[test]
fn set_operations() {
    let a = PermissionSet::from_bits(0b1100);
    let b = PermissionSet::from_bits(0b1010);
    assert_eq!(a.union(b).bits(), 0b1110);
    assert_eq!(a.intersection(b).bits(), 0b1000);
    assert_eq!(a.difference(b).bits(), 0b0100);
    assert_eq!(b.difference(a).bits(), 0b0010);
    assert_eq!(a.difference(a), PermissionSet::empty());
    assert!(PermissionSet::empty().is_empty());
    assert!(!a.is_empty());
    assert_eq!(PermissionSet::empty().bits(), 0);
    assert!(a.contains(PermissionSet::from_bits(0b0100)));
    assert!(a.contains(PermissionSet::empty()));
    assert!(a.contains(a));
    assert!(!a.contains(b));
    let top = PermissionSet::from_bits(1 << 63);
    assert_eq!(top.difference(a).bits(), 1 << 63);
    assert_eq!(PermissionSet::from_bits(u64::MAX).difference(top).bits(), u64::MAX >> 1);
}

#[test]
fn nothing_missing_is_ok() {
    assert_eq!(check(Some(SEND_MESSAGES | ADD_REACTIONS), SEND_MESSAGES), Ok(()));
    assert_eq!(check(Some(SEND_MESSAGES), SEND_MESSAGES), Ok(()));
    assert_eq!(check(Some(SEND_MESSAGES), 0), Ok(()));
    assert_eq!(check(Some(0), 0), Ok(()));
}

#[test]
fn missing_permissions_are_exactly_the_difference() {
    assert_eq!(
        check(Some(SEND_MESSAGES), SEND_MESSAGES | MANAGE_MESSAGES),
        Err(UserError::MissingPermissions(Some(PermissionSet::from_bits(MANAGE_MESSAGES))))
    );
    assert_eq!(
        check(Some(0), SEND_MESSAGES | ADD_REACTIONS),
        Err(UserError::MissingPermissions(Some(PermissionSet::from_bits(
            SEND_MESSAGES | ADD_REACTIONS
        ))))
    );
    assert_eq!(
        check(Some(ADD_REACTIONS), SEND_MESSAGES),
        Err(UserError::MissingPermissions(Some(PermissionSet::from_bits(SEND_MESSAGES))))
    );
}

#[test]
fn unknown_permissions_miss_nothing() {
    assert_eq!(check(None, SEND_MESSAGES | MANAGE_MESSAGES), Ok(()));
    assert_eq!(check(None, u64::MAX), Ok(()));
    assert_eq!(check(None, 0), Ok(()));
}

#[test]
fn check_without_a_handle() {
    let granted = Some(PermissionSet::from_bits(SEND_MESSAGES));
    assert_eq!(check_granted::<u8>(granted, PermissionSet::from_bits(SEND_MESSAGES)), Ok(()));
    assert_eq!(
        check_granted::<u8>(granted, PermissionSet::from_bits(SEND_MESSAGES | ADD_REACTIONS)),
        Err(UserError::MissingPermissions(Some(PermissionSet::from_bits(ADD_REACTIONS))))
    );
    assert_eq!(check_granted::<u8>(None, PermissionSet::from_bits(u64::MAX)), Ok(()));
}
