use rusty::structs::{GuildSnapshot, Member, User};
use rusty::utils::{highest_role_position, is_manageable, manageable, roles_known};
use std::collections::HashMap;

fn user(id: u64) -> User {
    User { id, name: format!("user{}", id), bot: false, face: format!("https://cdn.example/{}.png", id) }
}

fn member(id: u64, roles: Vec<u64>) -> Member {
    Member { user: user(id), roles }
}

fn guild() -> GuildSnapshot {
    let mut roles = HashMap::new();
    roles.insert(10, 1);
    roles.insert(20, 5);
    roles.insert(30, 9);
    roles.insert(40, 5);
    GuildSnapshot { id: 1, name: String::from("Lounge"), owner_id: 99, roles }
}

#[test]
fn equal_positions_are_manageable() {
    assert!(is_manageable(3, 3, false));
}

#[test]
fn lower_actor_is_refused() {
    assert!(!is_manageable(2, 3, false));
}

#[test]
fn higher_actor_is_allowed() {
    assert!(is_manageable(4, 3, false));
}

#[test]
fn owner_is_never_manageable() {
    assert!(!is_manageable(9, 0, true));
    assert!(!is_manageable(0, 0, true));
    assert!(!is_manageable(u16::MAX, 0, true));
}

#[test]
fn is_manageable_is_false_exactly_when_lower_or_owner() {
    let positions = [0u16, 1, 2, 5, 9, u16::MAX - 1, u16::MAX];
    for &a in positions.iter() {
        for &b in positions.iter() {
            for &o in [false, true].iter() {
                assert_eq!(is_manageable(a, b, o) == false, a < b || o);
            }
        }
    }
}

#[test]
fn highest_role_position_of_no_roles_is_zero() {
    assert_eq!(highest_role_position(&guild(), &vec![]), 0);
}

#[test]
fn highest_role_position_is_the_maximum() {
    assert_eq!(highest_role_position(&guild(), &vec![10]), 1);
    assert_eq!(highest_role_position(&guild(), &vec![10, 30, 20]), 9);
    assert_eq!(highest_role_position(&guild(), &vec![20, 40, 10]), 5);
    assert_eq!(highest_role_position(&guild(), &vec![20, 20]), 5);
}

#[test]
fn roles_known_tells_unknown_roles() {
    assert!(roles_known(&guild(), &vec![]));
    assert!(roles_known(&guild(), &vec![10, 20, 30, 40]));
    assert!(!roles_known(&guild(), &vec![10, 11]));
    assert!(!roles_known(&guild(), &vec![50]));
}

#[test]
fn manageable_compares_highest_roles() {
    let g = guild();
    let low = member(1, vec![10]);
    let mid = member(2, vec![10, 20]);
    let also_mid = member(3, vec![40]);
    let high = member(4, vec![30, 10]);
    assert!(manageable(&g, &high, &mid));
    assert!(!manageable(&g, &mid, &high));
    assert!(manageable(&g, &mid, &also_mid));
    assert!(manageable(&g, &also_mid, &mid));
    assert!(manageable(&g, &mid, &low));
    assert!(!manageable(&g, &low, &mid));
    assert!(manageable(&g, &low, &member(5, vec![])));
    assert!(!manageable(&g, &member(5, vec![]), &low));
}

#[test]
fn manageable_never_allows_acting_on_the_owner() {
    let g = guild();
    let owner = member(99, vec![]);
    let high = member(4, vec![30]);
    assert!(!manageable(&g, &high, &owner));
    assert!(manageable(&g, &owner, &member(6, vec![])));
}
