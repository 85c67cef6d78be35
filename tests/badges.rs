use nft_badges::{badge_key, is_owner, mint_badge, transfer_badge, Badge, BadgeError, Identity, Registry};

fn account(tag: u8) -> Identity {
    let mut bytes = [0u8; 32];
    bytes[0] = tag;
    bytes[31] = tag.wrapping_mul(3);
    Identity::new(bytes)
}

fn badge_with(owners: Vec<Identity>) -> Badge {
    Badge { id: 9, name: String::from("Silver"), description: String::from("Mid tier"), owners }
}

#[test]
fn mint_seeds_single_owner() {
    let a = account(1);
    let badge = mint_badge(7, String::from("Gold"), String::from("Top tier"), a);
    assert_eq!(badge.id, 7);
    assert_eq!(badge.name, "Gold");
    assert_eq!(badge.description, "Top tier");
    assert_eq!(badge.owners, vec![a]);
}

#[test]
fn badge_new_matches_mint() {
    let a = account(4);
    let badge = Badge::new(3, String::new(), String::new(), a);
    assert_eq!(badge.id, 3);
    assert_eq!(badge.owners, vec![a]);
}

#[test]
fn identities_compare_by_every_byte() {
    let mut x = [5u8; 32];
    let y = [5u8; 32];
    assert_eq!(Identity::new(x), Identity::new(y));
    x[31] = 6;
    assert_ne!(Identity::new(x), Identity::new(y));
    x[31] = 5;
    x[0] = 0;
    assert_ne!(Identity::new(x), Identity::new(y));
}

#[test]
fn is_owner_checks_membership() {
    let (a, b, c) = (account(1), account(2), account(3));
    let badge = badge_with(vec![a, b]);
    assert!(is_owner(&badge, &a));
    assert!(is_owner(&badge, &b));
    assert!(!is_owner(&badge, &c));
    assert!(badge.has_owner(&b));
}

#[test]
fn transfer_of_missing_badge_is_not_found() {
    let a = account(1);
    assert_eq!(transfer_badge(None, a, a).err(), Some(BadgeError::NotFound));
}

#[test]
fn transfer_by_stranger_is_denied() {
    let (a, b, c) = (account(1), account(2), account(3));
    let mut badge = badge_with(vec![a, b]);
    assert_eq!(badge.transfer(a, c), Err(BadgeError::PermissionDenied));
    assert_eq!(badge.owners, vec![a, b]);
    let r = transfer_badge(Some(badge_with(vec![a, b])), a, c);
    assert_eq!(r.err(), Some(BadgeError::PermissionDenied));
}

#[test]
fn denial_comes_before_new_owner_check() {
    let (a, b, c) = (account(1), account(2), account(3));
    let mut badge = badge_with(vec![a]);
    assert_eq!(badge.transfer(b, c), Err(BadgeError::PermissionDenied));
}

#[test]
fn transfer_to_non_owner_is_invalid() {
    let (a, b, c) = (account(1), account(2), account(3));
    let mut badge = badge_with(vec![a, b]);
    assert_eq!(badge.transfer(c, a), Err(BadgeError::InvalidNewOwner));
    assert_eq!(badge.owners, vec![a, b]);
}

#[test]
fn transfer_between_owners_removes_caller() {
    let (a, b, c) = (account(1), account(2), account(3));
    let r = transfer_badge(Some(badge_with(vec![a, b, c])), c, b);
    let badge = r.unwrap();
    assert_eq!(badge.owners, vec![a, c]);
    assert_eq!(badge.id, 9);
    assert_eq!(badge.name, "Silver");
    assert_eq!(badge.description, "Mid tier");
}

#[test]
fn self_transfer_keeps_owners_in_order() {
    let (a, b) = (account(1), account(2));
    let mut badge = badge_with(vec![a, b]);
    assert_eq!(badge.transfer(a, a), Ok(()));
    assert_eq!(badge.owners, vec![a, b]);
}

#[test]
fn gold_badge_self_transfer_succeeds() {
    let a = account(1);
    let badge = mint_badge(1, String::from("Gold"), String::from("Top tier"), a);
    assert_eq!(badge.owners, vec![a]);
    let badge = transfer_badge(Some(badge), a, a).unwrap();
    assert_eq!(badge.owners, vec![a]);
    assert_eq!(badge.name, "Gold");
}

#[test]
fn transfer_to_stranger_after_mint_is_invalid() {
    let (a, b) = (account(1), account(2));
    let badge = mint_badge(2, String::from("Bronze"), String::new(), a);
    assert_eq!(transfer_badge(Some(badge), b, a).err(), Some(BadgeError::InvalidNewOwner));
}

#[test]
fn error_messages() {
    assert_eq!(BadgeError::NotFound.message(), "Badge not found.");
    assert_eq!(
        BadgeError::PermissionDenied.message(),
        "Permission denied: You are not the owner of this badge."
    );
    assert_eq!(BadgeError::InvalidNewOwner.message(), "Invalid new owner.");
}

#[test]
fn storage_keys() {
    assert_eq!(badge_key(0), "badge_0");
    assert_eq!(badge_key(7), "badge_7");
    assert_eq!(badge_key(10), "badge_10");
    assert_eq!(badge_key(42), "badge_42");
    assert_eq!(badge_key(1_000_000), "badge_1000000");
    assert_eq!(badge_key(u64::MAX), "badge_18446744073709551615");
}

#[test]
fn registry_mint_and_get() {
    let a = account(1);
    let mut reg = Registry::new();
    assert!(reg.get(1).is_none());
    reg.mint(1, String::from("Gold"), String::from("Top tier"), a);
    let badge = reg.get(1).unwrap();
    assert_eq!(badge.owners, vec![a]);
    assert_eq!(badge.name, "Gold");
    assert!(reg.get(2).is_none());
}

#[test]
fn registry_remint_overwrites() {
    let (a, b) = (account(1), account(2));
    let mut reg = Registry::new();
    reg.mint(5, String::from("Old"), String::from("first"), a);
    reg.mint(6, String::from("Other"), String::new(), a);
    reg.mint(5, String::from("New"), String::from("second"), b);
    let badge = reg.get(5).unwrap();
    assert_eq!(badge.owners, vec![b]);
    assert_eq!(badge.name, "New");
    assert_eq!(badge.description, "second");
    assert_eq!(reg.get(6).unwrap().owners, vec![a]);
}

#[test]
fn registry_transfer_rejections_leave_state() {
    let (a, b) = (account(1), account(2));
    let mut reg = Registry::new();
    assert_eq!(reg.transfer(3, a, a), Err(BadgeError::NotFound));
    reg.mint(3, String::from("Gold"), String::new(), a);
    assert_eq!(reg.transfer(3, a, b), Err(BadgeError::PermissionDenied));
    assert_eq!(reg.transfer(3, b, a), Err(BadgeError::InvalidNewOwner));
    assert_eq!(reg.get(3).unwrap().owners, vec![a]);
    assert_eq!(reg.transfer(3, a, a), Ok(()));
    assert_eq!(reg.get(3).unwrap().owners, vec![a]);
}
