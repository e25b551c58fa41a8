//! The records the bot keeps and the snapshots of platform data it decides on.

use std::collections::HashMap;
use vstd::prelude::*;
use vstd::string::*;

verus! {

/// Copies an optional string.
pub fn clone_opt_string(o: &Option<String>) -> (r: Option<String>)
    ensures
        r == *o,
{
    match o {
        Some(s) => Some(s.clone()),
        None => None,
    }
}

/// The kind of a recorded moderation action.
#[derive(Clone, Copy, Debug, PartialEq, Eq, Structural)]
pub enum InfractionType {
    Ban,
    Kick,
    Mute,
    Warn,
}

impl InfractionType {
    /// The label under which the store keeps this kind.
    pub open spec fn spec_label(self) -> Seq<char> {
        match self {
            InfractionType::Ban => "ban"@,
            InfractionType::Kick => "kick"@,
            InfractionType::Mute => "mute"@,
            InfractionType::Warn => "warn"@,
        }
    }

    /// The kind that a stored label stands for, if it is one of the four.
    pub open spec fn spec_from_label(label: Seq<char>) -> Option<InfractionType> {
        if label == "ban"@ {
            Some(InfractionType::Ban)
        } else if label == "kick"@ {
            Some(InfractionType::Kick)
        } else if label == "mute"@ {
            Some(InfractionType::Mute)
        } else if label == "warn"@ {
            Some(InfractionType::Warn)
        } else {
            None
        }
    }

    /// The label under which the store keeps this kind, which is also the verb
    /// of the action ("ban", "kick", "mute", "warn").
    pub fn label(self) -> (r: &'static str)
        ensures
            r@ == self.spec_label(),
    {
        match self {
            InfractionType::Ban => "ban",
            InfractionType::Kick => "kick",
            InfractionType::Mute => "mute",
            InfractionType::Warn => "warn",
        }
    }

    /// Reads a stored label. Any text other than the four labels is rejected.
    pub fn from_label(label: &str) -> (r: Option<InfractionType>)
        ensures
            r == Self::spec_from_label(label@),
    {
        let given = String::from_str(label);
        if given == String::from_str("ban") {
            Some(InfractionType::Ban)
        } else if given == String::from_str("kick") {
            Some(InfractionType::Kick)
        } else if given == String::from_str("mute") {
            Some(InfractionType::Mute)
        } else if given == String::from_str("warn") {
            Some(InfractionType::Warn)
        } else {
            None
        }
    }

    /// Reading back the label of a kind gives that kind, and the label of a
    /// kind that was read is the text that was read: the two mappings are
    /// inverse to each other on the four labels.
    pub proof fn law_label_round_trip(kind: InfractionType, label: Seq<char>)
        ensures
            Self::spec_from_label(kind.spec_label()) == Some(kind),
            Self::spec_from_label(label) matches Some(k) ==> k.spec_label() == label,
            Self::spec_from_label(label) is None <==> label != "ban"@ && label != "kick"@ && label
                != "mute"@ && label != "warn"@,
    {
        reveal_strlit("ban");
        reveal_strlit("kick");
        reveal_strlit("mute");
        reveal_strlit("warn");
        assert("ban"@.len() == 3);
        assert("kick"@[0] == 'k');
        assert("mute"@[0] == 'm');
        assert("warn"@[0] == 'w');
    }
}

/// A guild's configuration row.
#[derive(Debug, PartialEq, Eq)]
pub struct Guild {
    pub id: String,
    pub mod_id: Option<String>,
    pub audit_id: Option<String>,
    pub welcome_id: Option<String>,
}

/// What a guild row says.
pub struct GuildView {
    pub id: Seq<char>,
    pub mod_id: Option<Seq<char>>,
    pub audit_id: Option<Seq<char>>,
    pub welcome_id: Option<Seq<char>>,
}

impl View for Guild {
    type V = GuildView;

    open spec fn view(&self) -> GuildView {
        GuildView {
            id: self.id@,
            mod_id: self.mod_id.deep_view(),
            audit_id: self.audit_id.deep_view(),
            welcome_id: self.welcome_id.deep_view(),
        }
    }
}

impl DeepView for Guild {
    type V = GuildView;

    open spec fn deep_view(&self) -> GuildView {
        self@
    }
}

impl Clone for Guild {
    fn clone(&self) -> (r: Self)
        ensures
            r == *self,
    {
        Guild {
            id: self.id.clone(),
            mod_id: clone_opt_string(&self.mod_id),
            audit_id: clone_opt_string(&self.audit_id),
            welcome_id: clone_opt_string(&self.welcome_id),
        }
    }
}

impl Guild {
    /// The row of a guild that has configured no channel yet.
    pub open spec fn spec_unconfigured(id: Seq<char>) -> GuildView {
        GuildView { id, mod_id: None, audit_id: None, welcome_id: None }
    }

    /// The row of a guild that has configured no channel yet.
    pub fn unconfigured(id: String) -> (r: Guild)
        ensures
            r@ == Self::spec_unconfigured(id@),
    {
        Guild { id, mod_id: None, audit_id: None, welcome_id: None }
    }
}

/// One recorded moderation action. `created_at` is the store's clock reading,
/// in seconds, at the moment the row was written; a record that was not
/// written yet has none.
#[derive(Debug, PartialEq, Eq)]
pub struct Infraction {
    pub guild_id: String,
    pub member_id: String,
    pub moderator_id: String,
    pub reason: String,
    pub infraction_type: InfractionType,
    pub created_at: Option<i64>,
}

/// What an infraction record says.
pub struct InfractionView {
    pub guild_id: Seq<char>,
    pub member_id: Seq<char>,
    pub moderator_id: Seq<char>,
    pub reason: Seq<char>,
    pub infraction_type: InfractionType,
    pub created_at: Option<i64>,
}

impl View for Infraction {
    type V = InfractionView;

    open spec fn view(&self) -> InfractionView {
        InfractionView {
            guild_id: self.guild_id@,
            member_id: self.member_id@,
            moderator_id: self.moderator_id@,
            reason: self.reason@,
            infraction_type: self.infraction_type,
            created_at: self.created_at,
        }
    }
}

impl DeepView for Infraction {
    type V = InfractionView;

    open spec fn deep_view(&self) -> InfractionView {
        self@
    }
}

impl Clone for Infraction {
    fn clone(&self) -> (r: Self)
        ensures
            r == *self,
    {
        Infraction {
            guild_id: self.guild_id.clone(),
            member_id: self.member_id.clone(),
            moderator_id: self.moderator_id.clone(),
            reason: self.reason.clone(),
            infraction_type: self.infraction_type,
            created_at: self.created_at,
        }
    }
}

impl Infraction {
    /// The record that a stored row stands for; none where the row's label
    /// is not one of the four kinds.
    pub open spec fn spec_from_row(
        guild_id: Seq<char>,
        member_id: Seq<char>,
        moderator_id: Seq<char>,
        reason: Seq<char>,
        label: Seq<char>,
        created_at: Option<i64>,
    ) -> Option<InfractionView> {
        match InfractionType::spec_from_label(label) {
            Some(infraction_type) => Some(
                InfractionView {
                    guild_id,
                    member_id,
                    moderator_id,
                    reason,
                    infraction_type,
                    created_at,
                },
            ),
            None => None,
        }
    }

    /// Reads a stored row. A row whose label is not one of the four kinds is
    /// rejected.
    pub fn from_row(
        guild_id: String,
        member_id: String,
        moderator_id: String,
        reason: String,
        label: &str,
        created_at: Option<i64>,
    ) -> (r: Option<Infraction>)
        ensures
            r is Some <==> InfractionType::spec_from_label(label@) is Some,
            r.deep_view() == Self::spec_from_row(
                guild_id@,
                member_id@,
                moderator_id@,
                reason@,
                label@,
                created_at,
            ),
    {
        match InfractionType::from_label(label) {
            Some(infraction_type) => Some(
                Infraction {
                    guild_id,
                    member_id,
                    moderator_id,
                    reason,
                    infraction_type,
                    created_at,
                },
            ),
            None => None,
        }
    }
}

/// Where the database is and how to log in.
#[derive(Debug, PartialEq, Eq)]
pub struct DbConfig {
    pub host: String,
    pub port: u16,
    pub username: String,
    pub password: String,
}

/// What database settings say.
pub struct DbConfigView {
    pub host: Seq<char>,
    pub port: u16,
    pub username: Seq<char>,
    pub password: Seq<char>,
}

impl View for DbConfig {
    type V = DbConfigView;

    open spec fn view(&self) -> DbConfigView {
        DbConfigView {
            host: self.host@,
            port: self.port,
            username: self.username@,
            password: self.password@,
        }
    }
}

/// One entry of an image service's answer.
#[derive(Debug, PartialEq, Eq)]
pub struct PetResponse {
    pub url: String,
}

/// The state shared by all command handlers. It holds nothing: every handler
/// is given what it needs as arguments.
#[derive(Debug, Default, Clone, Copy, PartialEq, Eq)]
pub struct Data {}

/// A platform user as the commands see them.
#[derive(Debug, PartialEq, Eq)]
pub struct User {
    pub id: u64,
    pub name: String,
    pub bot: bool,
    /// The address of the user's avatar image.
    pub face: String,
}

/// What is known of a user.
pub struct UserView {
    pub id: u64,
    pub name: Seq<char>,
    pub bot: bool,
    pub face: Seq<char>,
}

impl View for User {
    type V = UserView;

    open spec fn view(&self) -> UserView {
        UserView { id: self.id, name: self.name@, bot: self.bot, face: self.face@ }
    }
}

impl Clone for User {
    fn clone(&self) -> (r: Self)
        ensures
            r == *self,
    {
        User { id: self.id, name: self.name.clone(), bot: self.bot, face: self.face.clone() }
    }
}

/// A member of a guild: the user and the ids of the roles they hold.
#[derive(Debug, PartialEq, Eq)]
pub struct Member {
    pub user: User,
    pub roles: Vec<u64>,
}

/// What is known of a member.
pub struct MemberView {
    pub user: UserView,
    pub roles: Seq<u64>,
}

impl View for Member {
    type V = MemberView;

    open spec fn view(&self) -> MemberView {
        MemberView { user: self.user@, roles: self.roles@ }
    }
}

/// The part of a guild that the commands read: its name, its owner and the
/// position of each of its roles in the hierarchy, by role id.
#[derive(Debug, PartialEq, Eq)]
pub struct GuildSnapshot {
    pub id: u64,
    pub name: String,
    pub owner_id: u64,
    pub roles: HashMap<u64, u16>,
}

/// What is known of a guild.
pub struct GuildSnapshotView {
    pub id: u64,
    pub name: Seq<char>,
    pub owner_id: u64,
    pub roles: Map<u64, u16>,
}

impl View for GuildSnapshot {
    type V = GuildSnapshotView;

    open spec fn view(&self) -> GuildSnapshotView {
        GuildSnapshotView {
            id: self.id,
            name: self.name@,
            owner_id: self.owner_id,
            roles: self.roles@,
        }
    }
}

} // verus!
