use rusty::structs::{Infraction, InfractionType};

#[test]
fn labels_are_lower_case_names() {
    assert_eq!(InfractionType::Ban.label(), "ban");
    assert_eq!(InfractionType::Kick.label(), "kick");
    assert_eq!(InfractionType::Mute.label(), "mute");
    assert_eq!(InfractionType::Warn.label(), "warn");
}

#[test]
fn from_label_reads_the_four_labels() {
    assert_eq!(InfractionType::from_label("ban"), Some(InfractionType::Ban));
    assert_eq!(InfractionType::from_label("kick"), Some(InfractionType::Kick));
    assert_eq!(InfractionType::from_label("mute"), Some(InfractionType::Mute));
    assert_eq!(InfractionType::from_label("warn"), Some(InfractionType::Warn));
}

#[test]
fn from_label_rejects_unknown_labels() {
    assert_eq!(InfractionType::from_label(""), None);
    assert_eq!(InfractionType::from_label("Ban"), None);
    assert_eq!(InfractionType::from_label("BAN"), None);
    assert_eq!(InfractionType::from_label("ban "), None);
    assert_eq!(InfractionType::from_label("timeout"), None);
    assert_eq!(InfractionType::from_label("warning"), None);
}

#[test]
fn label_and_from_label_are_inverse() {
    let kinds =
        [InfractionType::Ban, InfractionType::Kick, InfractionType::Mute, InfractionType::Warn];
    for &k in kinds.iter() {
        assert_eq!(InfractionType::from_label(k.label()), Some(k));
    }
}

#[test]
fn from_row_keeps_a_row_with_a_known_label() {
    let row = Infraction::from_row(
        String::from("1"),
        String::from("2"),
        String::from("3"),
        String::from("spam"),
        "kick",
        Some(1700000000),
    );
    assert_eq!(
        row,
        Some(Infraction {
            guild_id: String::from("1"),
            member_id: String::from("2"),
            moderator_id: String::from("3"),
            reason: String::from("spam"),
            infraction_type: InfractionType::Kick,
            created_at: Some(1700000000),
        })
    );
}

#[test]
fn from_row_rejects_a_row_with_an_unknown_label() {
    let row = Infraction::from_row(
        String::from("1"),
        String::from("2"),
        String::from("3"),
        String::from("spam"),
        "exile",
        None,
    );
    assert_eq!(row, None);
}
