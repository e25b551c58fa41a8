use rusty::database::{
    connect, count_says_exists, get_guild, get_infractions, guild_exists, insert_guild,
    insert_infraction, PoolOptions, Store,
};
use rusty::structs::{DbConfig, Guild, Infraction, InfractionType};

fn guild(id: &str) -> Guild {
    Guild { id: String::from(id), mod_id: None, audit_id: None, welcome_id: None }
}

fn infraction(guild: &str, member: &str, kind: InfractionType) -> Infraction {
    Infraction {
        guild_id: String::from(guild),
        member_id: String::from(member),
        moderator_id: String::from("7"),
        reason: String::from("No reason provided"),
        infraction_type: kind,
        created_at: None,
    }
}

#[test]
fn a_new_store_is_empty() {
    let store = Store::new();
    assert_eq!(store.guild_count(), 0);
    assert_eq!(store.infraction_count(), 0);
    assert!(!guild_exists(&store, &String::from("1")));
    assert_eq!(get_guild(&store, &String::from("1")), None);
    assert_eq!(get_infractions(&store, "1", "2"), vec![]);
}

#[test]
fn insert_guild_writes_a_row() {
    let mut store = Store::new();
    assert!(insert_guild(&mut store, &guild("1")));
    assert!(guild_exists(&store, &String::from("1")));
    assert!(!guild_exists(&store, &String::from("2")));
    assert_eq!(store.guild_count(), 1);
    assert_eq!(get_guild(&store, &String::from("1")), Some(guild("1")));
}

#[test]
fn insert_guild_twice_is_a_no_op() {
    let mut store = Store::new();
    assert!(insert_guild(&mut store, &guild("1")));
    assert!(!insert_guild(&mut store, &guild("1")));
    assert_eq!(store.guild_count(), 1);
}

#[test]
fn insert_guild_twice_keeps_the_first_row() {
    let mut store = Store::new();
    let configured = Guild {
        id: String::from("1"),
        mod_id: Some(String::from("555")),
        audit_id: None,
        welcome_id: Some(String::from("777")),
    };
    assert!(insert_guild(&mut store, &configured));
    assert!(!insert_guild(&mut store, &guild("1")));
    assert_eq!(store.guild_count(), 1);
    assert_eq!(get_guild(&store, &String::from("1")), Some(configured));
}

#[test]
fn guilds_are_kept_apart() {
    let mut store = Store::new();
    assert!(insert_guild(&mut store, &guild("1")));
    assert!(insert_guild(&mut store, &guild("2")));
    assert!(insert_guild(&mut store, &guild("10")));
    assert_eq!(store.guild_count(), 3);
    assert_eq!(get_guild(&store, &String::from("2")), Some(guild("2")));
    assert_eq!(get_guild(&store, &String::from("3")), None);
}

#[test]
fn insert_infraction_stamps_the_row() {
    let mut store = Store::new();
    insert_infraction(&mut store, &infraction("1", "2", InfractionType::Ban), 1700000000);
    let mut expected = infraction("1", "2", InfractionType::Ban);
    expected.created_at = Some(1700000000);
    assert_eq!(get_infractions(&store, "1", "2"), vec![expected]);
    assert_eq!(store.infraction_count(), 1);
    assert_eq!(store.guild_count(), 0);
}

#[test]
fn get_infractions_returns_only_the_member_asked_for() {
    let mut store = Store::new();
    insert_infraction(&mut store, &infraction("1", "2", InfractionType::Ban), 10);
    insert_infraction(&mut store, &infraction("1", "3", InfractionType::Kick), 20);
    let got = get_infractions(&store, "1", "2");
    assert_eq!(got.len(), 1);
    assert_eq!(got[0].member_id, "2");
    assert_eq!(got[0].infraction_type, InfractionType::Ban);
    assert_eq!(got[0].created_at, Some(10));
    let other = get_infractions(&store, "1", "3");
    assert_eq!(other.len(), 1);
    assert_eq!(other[0].infraction_type, InfractionType::Kick);
}

#[test]
fn get_infractions_keeps_guilds_apart() {
    let mut store = Store::new();
    insert_infraction(&mut store, &infraction("1", "2", InfractionType::Ban), 10);
    insert_infraction(&mut store, &infraction("9", "2", InfractionType::Mute), 20);
    assert_eq!(get_infractions(&store, "1", "2").len(), 1);
    assert_eq!(get_infractions(&store, "9", "2").len(), 1);
    assert_eq!(get_infractions(&store, "9", "2")[0].infraction_type, InfractionType::Mute);
    assert_eq!(get_infractions(&store, "2", "1"), vec![]);
}

#[test]
fn get_infractions_keeps_the_order_of_writing() {
    let mut store = Store::new();
    insert_infraction(&mut store, &infraction("1", "2", InfractionType::Warn), 10);
    insert_infraction(&mut store, &infraction("1", "3", InfractionType::Kick), 20);
    insert_infraction(&mut store, &infraction("1", "2", InfractionType::Mute), 30);
    insert_infraction(&mut store, &infraction("1", "2", InfractionType::Ban), 40);
    let kinds: Vec<InfractionType> =
        get_infractions(&store, "1", "2").iter().map(|i| i.infraction_type).collect();
    assert_eq!(kinds, vec![InfractionType::Warn, InfractionType::Mute, InfractionType::Ban]);
    let stamps: Vec<Option<i64>> =
        get_infractions(&store, "1", "2").iter().map(|i| i.created_at).collect();
    assert_eq!(stamps, vec![Some(10), Some(30), Some(40)]);
}

#[test]
fn infractions_are_never_merged() {
    let mut store = Store::new();
    insert_infraction(&mut store, &infraction("1", "2", InfractionType::Ban), 10);
    insert_infraction(&mut store, &infraction("1", "2", InfractionType::Ban), 10);
    assert_eq!(get_infractions(&store, "1", "2").len(), 2);
    assert_eq!(store.infraction_count(), 2);
}

#[test]
fn a_count_above_zero_says_that_the_guild_exists() {
    assert!(count_says_exists(Some(1)));
    assert!(count_says_exists(Some(2)));
    assert!(!count_says_exists(Some(0)));
    assert!(!count_says_exists(Some(-1)));
    assert!(!count_says_exists(None));
}

#[test]
fn the_pool_is_opened_with_five_to_a_hundred_connections() {
    let config = DbConfig {
        host: String::from("db.example"),
        port: 5432,
        username: String::from("bot"),
        password: String::from("hunter2"),
    };
    assert_eq!(
        connect(&config),
        PoolOptions {
            min_connections: 5,
            max_connections: 100,
            host: String::from("db.example"),
            port: 5432,
            username: String::from("bot"),
            password: String::from("hunter2"),
            database: String::from("rusty"),
        }
    );
}
