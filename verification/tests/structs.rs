use rusty::structs::{clone_opt_string, Data, Guild, Infraction, InfractionType, User};

#[test]
fn an_unconfigured_guild_names_no_channel() {
    assert_eq!(
        Guild::unconfigured(String::from("1000")),
        Guild { id: String::from("1000"), mod_id: None, audit_id: None, welcome_id: None }
    );
}

#[test]
fn a_cloned_guild_is_equal() {
    let guild = Guild {
        id: String::from("1000"),
        mod_id: Some(String::from("555")),
        audit_id: None,
        welcome_id: Some(String::from("777")),
    };
    assert_eq!(guild.clone(), guild);
}

#[test]
fn a_cloned_infraction_is_equal() {
    let infraction = Infraction {
        guild_id: String::from("1000"),
        member_id: String::from("40"),
        moderator_id: String::from("20"),
        reason: String::from("spamming"),
        infraction_type: InfractionType::Warn,
        created_at: Some(-5),
    };
    assert_eq!(infraction.clone(), infraction);
}

#[test]
fn a_cloned_user_is_equal() {
    let user = User {
        id: 40,
        name: String::from("mallory"),
        bot: true,
        face: String::from("https://cdn.example/avatars/40.png"),
    };
    assert_eq!(user.clone(), user);
}

#[test]
fn an_optional_string_is_copied() {
    assert_eq!(clone_opt_string(&None), None);
    assert_eq!(clone_opt_string(&Some(String::from("555"))), Some(String::from("555")));
}

#[test]
fn the_shared_state_holds_nothing() {
    assert_eq!(Data::default(), Data {});
}
