//! The permission rule, the messages of a moderation action, and the order in
//! which the action is carried out.

use crate::database::{count_says_exists, spec_count_says_exists};
use crate::embed::{spec_field, Color, Embed, EmbedField, EmbedView};
use crate::structs::{
    Guild, GuildSnapshot, GuildSnapshotView, GuildView, Infraction, InfractionType,
    InfractionView, Member, MemberView, User, UserView,
};
use crate::text::{decimal, decimal_string, parse_decimal, parse_u64, push_decimal};
use vstd::prelude::*;
use vstd::string::*;

verus! {

broadcast use vstd::std_specs::hash::group_hash_axioms;

/// The permission rule: the actor may act on the target unless the target
/// stands strictly higher in the role hierarchy or owns the guild. Equal
/// positions favour the actor.
pub open spec fn spec_is_manageable(
    actor_highest_position: u16,
    target_highest_position: u16,
    target_is_owner: bool,
) -> bool {
    !(actor_highest_position < target_highest_position || target_is_owner)
}

/// Decides whether an actor whose highest role stands at
/// `actor_highest_position` may act on a target whose highest role stands at
/// `target_highest_position`.
pub fn is_manageable(
    actor_highest_position: u16,
    target_highest_position: u16,
    target_is_owner: bool,
) -> (r: bool)
    ensures
        r == spec_is_manageable(actor_highest_position, target_highest_position, target_is_owner),
        r == false <==> (actor_highest_position < target_highest_position || target_is_owner
            == true),
{
    !(actor_highest_position < target_highest_position || target_is_owner)
}

/// Whether the guild knows the position of every one of the given roles.
pub open spec fn roles_resolved(positions: Map<u64, u16>, roles: Seq<u64>) -> bool {
    forall|i: int| 0 <= i < roles.len() ==> positions.contains_key(#[trigger] roles[i])
}

/// The highest position among the given roles; 0 for a member without roles.
pub open spec fn spec_highest_role_position(positions: Map<u64, u16>, roles: Seq<u64>) -> u16
    decreases roles.len(),
{
    if roles.len() == 0 {
        0
    } else {
        let rest = spec_highest_role_position(positions, roles.drop_last());
        let last = positions[roles.last()];
        if rest < last {
            last
        } else {
            rest
        }
    }
}

/// The highest position is an upper bound of the positions of all the roles,
/// and it is the position of one of them unless it is 0.
pub proof fn lemma_highest_role_position(positions: Map<u64, u16>, roles: Seq<u64>)
    ensures
        forall|i: int|
            0 <= i < roles.len() ==> positions[#[trigger] roles[i]] <= spec_highest_role_position(
                positions,
                roles,
            ),
        spec_highest_role_position(positions, roles) == 0 || exists|i: int|
            0 <= i < roles.len() && positions[#[trigger] roles[i]] == spec_highest_role_position(
                positions,
                roles,
            ),
    decreases roles.len(),
{
    if roles.len() > 0 {
        let front = roles.drop_last();
        lemma_highest_role_position(positions, front);
        let top = spec_highest_role_position(positions, roles);
        assert forall|i: int| 0 <= i < roles.len() implies positions[#[trigger] roles[i]]
            <= top by {
            if i < front.len() {
                assert(front[i] == roles[i]);
            }
        }
        if top != 0 {
            if top == positions[roles.last()] {
                assert(positions[roles[roles.len() - 1]] == top);
            } else {
                let i = choose|i: int|
                    0 <= i < front.len() && positions[#[trigger] front[i]]
                        == spec_highest_role_position(positions, front);
                assert(roles[i] == front[i]);
            }
        }
    }
}

/// Tells whether the guild knows the position of every role of the member.
pub fn roles_known(guild: &GuildSnapshot, roles: &Vec<u64>) -> (r: bool)
    ensures
        r == roles_resolved(guild.roles@, roles@),
{
    let mut i: usize = 0;
    while i < roles.len()
        invariant
            i <= roles.len(),
            roles_resolved(guild.roles@, roles@.take(i as int)),
        decreases roles.len() - i,
    {
        if !guild.roles.contains_key(&roles[i]) {
            return false;
        }
        assert forall|j: int| 0 <= j < i + 1 implies guild.roles@.contains_key(
            #[trigger] roles@.take(i + 1)[j],
        ) by {
            if j < i {
                assert(roles@.take(i as int)[j] == roles@[j]);
            }
        }
        i = i + 1;
    }
    assert(roles@.take(i as int) == roles@);
    true
}

/// The highest position among the roles with the given ids, 0 where there are
/// none. The guild must know every one of the roles.
pub fn highest_role_position(guild: &GuildSnapshot, roles: &Vec<u64>) -> (r: u16)
    requires
        roles_resolved(guild.roles@, roles@),
    ensures
        r == spec_highest_role_position(guild.roles@, roles@),
        forall|i: int| 0 <= i < roles.len() ==> guild.roles@[#[trigger] roles[i]] <= r,
        r == 0 || exists|i: int| 0 <= i < roles.len() && guild.roles@[#[trigger] roles[i]] == r,
{
    let mut highest_role_pos: u16 = 0;
    let mut i: usize = 0;
    while i < roles.len()
        invariant
            i <= roles.len(),
            roles_resolved(guild.roles@, roles@),
            highest_role_pos == spec_highest_role_position(guild.roles@, roles@.take(i as int)),
        decreases roles.len() - i,
    {
        assert(guild.roles@.contains_key(roles@[i as int]));
        let position = *guild.roles.get(&roles[i]).unwrap();
        assert(roles@.take(i + 1).drop_last() == roles@.take(i as int));
        if highest_role_pos < position {
            highest_role_pos = position;
        }
        i = i + 1;
    }
    assert(roles@.take(i as int) == roles@);
    proof {
        lemma_highest_role_position(guild.roles@, roles@);
    }
    highest_role_pos
}

/// What `manageable` decides: the permission rule on the highest positions of
/// the two members.
pub open spec fn spec_manageable(
    guild: GuildSnapshotView,
    member: MemberView,
    target: MemberView,
) -> bool {
    spec_is_manageable(
        spec_highest_role_position(guild.roles, member.roles),
        spec_highest_role_position(guild.roles, target.roles),
        target.user.id == guild.owner_id,
    )
}

/// Decides whether `member` may act on `target` in the guild: not if the
/// target's highest role stands strictly above the member's, and not if the
/// target owns the guild.
pub fn manageable(guild: &GuildSnapshot, member: &Member, target: &Member) -> (r: bool)
    requires
        roles_resolved(guild@.roles, member@.roles),
        roles_resolved(guild@.roles, target@.roles),
    ensures
        r == spec_manageable(guild@, member@, target@),
{
    let member_highest_role = highest_role_position(guild, &member.roles);
    let target_highest_role = highest_role_position(guild, &target.roles);
    is_manageable(member_highest_role, target_highest_role, target.user.id == guild.owner_id)
}

/// How a user is mentioned in a message.
pub open spec fn spec_mention(id: u64) -> Seq<char> {
    "<@"@ + decimal(id as nat) + ">"@
}

/// How a user is mentioned in a message.
pub fn mention(id: u64) -> (r: String)
    ensures
        r@ == spec_mention(id),
{
    let mut out = String::from_str("<@");
    push_decimal(&mut out, id);
    out.append(">");
    out
}

/// What has been done to the target, as the target is told.
pub open spec fn spec_done_to_you(mod_type: InfractionType) -> Seq<char> {
    match mod_type {
        InfractionType::Ban => "banned"@,
        InfractionType::Kick => "kicked"@,
        InfractionType::Mute => "muted"@,
        InfractionType::Warn => "warned"@,
    }
}

/// What has been done to the target, as a heading.
pub open spec fn spec_done_heading(mod_type: InfractionType) -> Seq<char> {
    match mod_type {
        InfractionType::Ban => "Banned"@,
        InfractionType::Kick => "Kicked"@,
        InfractionType::Mute => "Muted"@,
        InfractionType::Warn => "Warned"@,
    }
}

/// The notice for the target of a moderation action; none for a bot.
pub open spec fn spec_mod_msg_to_user(
    mod_type: InfractionType,
    user: UserView,
    guild_name: Seq<char>,
    reason: Seq<char>,
) -> Option<EmbedView> {
    if user.bot {
        None
    } else {
        Some(
            EmbedView {
                author_name: "You have been "@ + spec_done_to_you(mod_type) + " from "@
                    + guild_name,
                author_icon_url: user.face,
                author_url: None,
                description: None,
                fields: seq![spec_field("Reason"@, reason, true)],
                image: None,
                color: Color::Blue,
                timestamp: true,
            },
        )
    }
}

/// The public confirmation of a moderation action.
pub open spec fn spec_mod_msg_to_channel(
    mod_type: InfractionType,
    user: UserView,
    reason: Seq<char>,
) -> EmbedView {
    EmbedView {
        author_name: spec_done_heading(mod_type) + " "@ + user.name,
        author_icon_url: user.face,
        author_url: None,
        description: None,
        fields: seq![
            spec_field("User"@, spec_mention(user.id), true),
            spec_field("Reason"@, reason, true),
        ],
        image: None,
        color: Color::Blue,
        timestamp: true,
    }
}

/// The message that reports an error to the one who ran the command.
pub open spec fn spec_error_msg(author: UserView, msg: Seq<char>) -> EmbedView {
    EmbedView {
        author_name: "Error"@,
        author_icon_url: author.face,
        author_url: None,
        description: Some(msg),
        fields: seq![],
        image: None,
        color: Color::Red,
        timestamp: false,
    }
}

/// Composes the direct notice that tells `user` what was done to them in the
/// guild, and why. A bot is sent none.
pub fn send_mod_msg_to_user(
    mod_type: &InfractionType,
    user: &User,
    guild_name: &str,
    reason: &String,
) -> (r: Option<Embed>)
    ensures
        r is Some <==> !user.bot,
        r.deep_view() == spec_mod_msg_to_user(*mod_type, user@, guild_name@, reason@),
{
    if user.bot {
        return None;
    }
    let done = match mod_type {
        InfractionType::Ban => "banned",
        InfractionType::Kick => "kicked",
        InfractionType::Mute => "muted",
        InfractionType::Warn => "warned",
    };
    let mut heading = String::from_str("You have been ");
    heading.append(done);
    heading.append(" from ");
    heading.append(guild_name);
    let fields = vec![
        EmbedField { name: String::from_str("Reason"), value: reason.clone(), inline: true },
    ];
    let embed = Embed {
        author_name: heading,
        author_icon_url: user.face.clone(),
        author_url: None,
        description: None,
        fields,
        image: None,
        color: Color::Blue,
        timestamp: true,
    };
    assert(embed@.fields =~= seq![spec_field("Reason"@, reason@, true)]);
    Some(embed)
}

/// Composes the public confirmation of a moderation action against `user`.
pub fn send_mod_msg_to_channel(mod_type: &InfractionType, user: &User, reason: &String) -> (r:
    Embed)
    ensures
        r@ == spec_mod_msg_to_channel(*mod_type, user@, reason@),
{
    let done = match mod_type {
        InfractionType::Ban => "Banned",
        InfractionType::Kick => "Kicked",
        InfractionType::Mute => "Muted",
        InfractionType::Warn => "Warned",
    };
    let mut heading = String::from_str(done);
    heading.append(" ");
    heading.append(user.name.as_str());
    let fields = vec![
        EmbedField { name: String::from_str("User"), value: mention(user.id), inline: true },
        EmbedField { name: String::from_str("Reason"), value: reason.clone(), inline: true },
    ];
    let embed = Embed {
        author_name: heading,
        author_icon_url: user.face.clone(),
        author_url: None,
        description: None,
        fields,
        image: None,
        color: Color::Blue,
        timestamp: true,
    };
    assert(embed@.fields =~= seq![
        spec_field("User"@, spec_mention(user.id), true),
        spec_field("Reason"@, reason@, true),
    ]);
    embed
}

/// Composes the announcement for the guild's moderation-log channel: the
/// public confirmation again, or nothing where the channel was not found.
pub fn send_mod_msg_to_modlog(
    mod_type: &InfractionType,
    user: &User,
    reason: &String,
    channel_found: bool,
) -> (r: Option<Embed>)
    ensures
        r is Some <==> channel_found,
        r matches Some(e) ==> e@ == spec_mod_msg_to_channel(*mod_type, user@, reason@),
{
    if !channel_found {
        return None;
    }
    Some(send_mod_msg_to_channel(mod_type, user, reason))
}

/// Composes the message that reports `msg` as an error to `author`, who ran
/// the command.
pub fn send_error_msg(author: &User, msg: &str) -> (r: Embed)
    ensures
        r@ == spec_error_msg(author@, msg@),
{
    let embed = Embed {
        author_name: String::from_str("Error"),
        author_icon_url: author.face.clone(),
        author_url: None,
        description: Some(String::from_str(msg)),
        fields: Vec::new(),
        image: None,
        color: Color::Red,
        timestamp: false,
    };
    assert(embed@.fields =~= seq![]);
    embed
}

/// One moderation command as it was invoked: what is to be done to whom, by
/// whom, where and why. `refusal` holds the message that is sent in place of
/// acting, where the permission rule forbids the action.
#[derive(Debug, PartialEq, Eq)]
pub struct Moderation {
    pub mod_type: InfractionType,
    pub guild_id: u64,
    pub guild_name: String,
    pub moderator: User,
    pub target: User,
    pub reason: String,
    pub refusal: Option<Embed>,
}

/// What a moderation command says.
pub struct ModerationView {
    pub mod_type: InfractionType,
    pub guild_id: u64,
    pub guild_name: Seq<char>,
    pub moderator: UserView,
    pub target: UserView,
    pub reason: Seq<char>,
    pub refusal: Option<EmbedView>,
}

impl View for Moderation {
    type V = ModerationView;

    open spec fn view(&self) -> ModerationView {
        ModerationView {
            mod_type: self.mod_type,
            guild_id: self.guild_id,
            guild_name: self.guild_name@,
            moderator: self.moderator@,
            target: self.target@,
            reason: self.reason@,
            refusal: self.refusal.deep_view(),
        }
    }
}

/// How far a moderation command has come: the name says which action is under
/// way, and so which answer is awaited.
#[derive(Clone, Copy, Debug, PartialEq, Eq, Structural)]
pub enum Phase {
    /// Nothing has been done yet.
    Start,
    /// The refusal is being sent.
    Refusing,
    /// The target is being told.
    Notifying,
    /// The confirmation is being posted where the command was invoked.
    Confirming,
    /// The infraction is being written.
    Recording,
    /// The guild's row is being looked up.
    FetchingGuild,
    /// The guild's rows are being counted.
    CountingGuild,
    /// The guild's row is being written.
    CreatingGuild,
    /// The moderation-log channel with this id is being looked up.
    ResolvingModlog(u64),
    /// The confirmation is being posted in the moderation-log channel.
    Announcing,
    /// The platform is carrying out the ban or kick.
    Enforcing,
    /// Nothing is left to do.
    Done,
}

/// What came of the action that was under way.
#[derive(Debug, PartialEq, Eq)]
pub enum Event {
    /// The action was carried out.
    Succeeded,
    /// The action failed.
    Failed,
    /// The answer to a lookup of a guild's row: the row, or none where there
    /// is none or the lookup failed.
    Guild(Option<Guild>),
    /// The answer to a count of a guild's rows: the count, or none where the
    /// store gave none or the count failed.
    Count(Option<i64>),
}

/// What an event says.
pub enum EventView {
    Succeeded,
    Failed,
    Guild(Option<GuildView>),
    Count(Option<i64>),
}

impl View for Event {
    type V = EventView;

    open spec fn view(&self) -> EventView {
        match *self {
            Event::Succeeded => EventView::Succeeded,
            Event::Failed => EventView::Failed,
            Event::Guild(g) => EventView::Guild(g.deep_view()),
            Event::Count(c) => EventView::Count(c),
        }
    }
}

/// What is to be done next for a moderation command.
#[derive(Debug, PartialEq, Eq)]
pub enum Action {
    /// Tell the one who ran the command that it is refused.
    SendError(Embed),
    /// Send the user a direct message.
    DirectMessage { user_id: u64, embed: Embed },
    /// Post in the channel in which the command was invoked.
    Reply(Embed),
    /// Write an infraction row.
    InsertInfraction(Infraction),
    /// Look up the row of the guild with this id.
    GetGuild(String),
    /// Count the rows of the guild with this id.
    CountGuild(String),
    /// Write a guild row.
    InsertGuild(Guild),
    /// Look up the channel with this id.
    GetChannel(u64),
    /// Post in the channel with this id.
    Post { channel_id: u64, embed: Embed },
    /// Ban the user from the guild, deleting their messages of the last
    /// `delete_message_days` days.
    Ban { user_id: u64, delete_message_days: u8, reason: String },
    /// Kick the user from the guild.
    Kick { user_id: u64, reason: String },
    /// Stop. The command failed where `ok` is false.
    Finish { ok: bool },
}

/// What an action says.
pub enum ActionView {
    SendError(EmbedView),
    DirectMessage { user_id: u64, embed: EmbedView },
    Reply(EmbedView),
    InsertInfraction(InfractionView),
    GetGuild(Seq<char>),
    CountGuild(Seq<char>),
    InsertGuild(GuildView),
    GetChannel(u64),
    Post { channel_id: u64, embed: EmbedView },
    Ban { user_id: u64, delete_message_days: u8, reason: Seq<char> },
    Kick { user_id: u64, reason: Seq<char> },
    Finish { ok: bool },
}

impl View for Action {
    type V = ActionView;

    open spec fn view(&self) -> ActionView {
        match *self {
            Action::SendError(e) => ActionView::SendError(e@),
            Action::DirectMessage { user_id, embed } => ActionView::DirectMessage {
                user_id,
                embed: embed@,
            },
            Action::Reply(e) => ActionView::Reply(e@),
            Action::InsertInfraction(i) => ActionView::InsertInfraction(i@),
            Action::GetGuild(id) => ActionView::GetGuild(id@),
            Action::CountGuild(id) => ActionView::CountGuild(id@),
            Action::InsertGuild(g) => ActionView::InsertGuild(g@),
            Action::GetChannel(id) => ActionView::GetChannel(id),
            Action::Post { channel_id, embed } => ActionView::Post { channel_id, embed: embed@ },
            Action::Ban { user_id, delete_message_days, reason } => ActionView::Ban {
                user_id,
                delete_message_days,
                reason: reason@,
            },
            Action::Kick { user_id, reason } => ActionView::Kick { user_id, reason: reason@ },
            Action::Finish { ok } => ActionView::Finish { ok },
        }
    }
}

/// The infraction that records a moderation command.
pub open spec fn spec_infraction(job: ModerationView) -> InfractionView {
    InfractionView {
        guild_id: decimal(job.guild_id as nat),
        member_id: decimal(job.target.id as nat),
        moderator_id: decimal(job.moderator.id as nat),
        reason: job.reason,
        infraction_type: job.mod_type,
        created_at: None,
    }
}

/// The id of the moderation-log channel that a guild's row names, if it names
/// one and the name is a numeral.
pub open spec fn spec_modlog_channel(guild: GuildView) -> Option<u64> {
    match guild.mod_id {
        Some(id) => match parse_decimal(id, u64::MAX as nat) {
            Some(n) => Some(n as u64),
            None => None,
        },
        None => None,
    }
}

/// The count that an event reports; none for any other event.
pub open spec fn spec_count(event: EventView) -> Option<i64> {
    match event {
        EventView::Count(c) => c,
        _ => None,
    }
}

/// The step that posts the public confirmation.
pub open spec fn spec_confirm(job: ModerationView) -> (Phase, ActionView) {
    (
        Phase::Confirming,
        ActionView::Reply(spec_mod_msg_to_channel(job.mod_type, job.target, job.reason)),
    )
}

/// The last step: the platform's own action for a ban or a kick. A mute or a
/// warning is recorded only, so there the command is finished.
pub open spec fn spec_enforce(job: ModerationView) -> (Phase, ActionView) {
    match job.mod_type {
        InfractionType::Ban => (
            Phase::Enforcing,
            ActionView::Ban { user_id: job.target.id, delete_message_days: 7, reason: job.reason },
        ),
        InfractionType::Kick => (
            Phase::Enforcing,
            ActionView::Kick { user_id: job.target.id, reason: job.reason },
        ),
        _ => (Phase::Done, ActionView::Finish { ok: true }),
    }
}

/// The moderation workflow, one step at a time: from the phase a command is
/// in and the outcome of the action that was under way, the phase it enters
/// and the action to carry out next.
///
/// A refused command sends the refusal and stops. Any other tells the target
/// (unless it is a bot), posts the confirmation, writes the infraction, makes
/// sure that the guild has a row, announces the action in the moderation-log
/// channel where the row names one, and only then has the platform ban or
/// kick. Apart from the platform's own action, a failed action never stops
/// the ones that follow it.
pub open spec fn spec_handle_moderation(job: ModerationView, phase: Phase, event: EventView) -> (
    Phase,
    ActionView,
) {
    match phase {
        Phase::Start => match job.refusal {
            Some(e) => (Phase::Refusing, ActionView::SendError(e)),
            None => match spec_mod_msg_to_user(
                job.mod_type,
                job.target,
                job.guild_name,
                job.reason,
            ) {
                Some(e) => (
                    Phase::Notifying,
                    ActionView::DirectMessage { user_id: job.target.id, embed: e },
                ),
                None => spec_confirm(job),
            },
        },
        Phase::Refusing => (Phase::Done, ActionView::Finish { ok: true }),
        Phase::Notifying => spec_confirm(job),
        Phase::Confirming => (
            Phase::Recording,
            ActionView::InsertInfraction(spec_infraction(job)),
        ),
        Phase::Recording => (
            Phase::FetchingGuild,
            ActionView::GetGuild(decimal(job.guild_id as nat)),
        ),
        Phase::FetchingGuild => match event {
            EventView::Guild(Some(g)) => match spec_modlog_channel(g) {
                Some(n) => (Phase::ResolvingModlog(n), ActionView::GetChannel(n)),
                None => spec_enforce(job),
            },
            _ => (Phase::CountingGuild, ActionView::CountGuild(decimal(job.guild_id as nat))),
        },
        Phase::CountingGuild => if spec_count_says_exists(spec_count(event)) {
            spec_enforce(job)
        } else {
            (
                Phase::CreatingGuild,
                ActionView::InsertGuild(Guild::spec_unconfigured(decimal(job.guild_id as nat))),
            )
        },
        Phase::CreatingGuild => spec_enforce(job),
        Phase::ResolvingModlog(n) => if event is Succeeded {
            (
                Phase::Announcing,
                ActionView::Post {
                    channel_id: n,
                    embed: spec_mod_msg_to_channel(job.mod_type, job.target, job.reason),
                },
            )
        } else {
            spec_enforce(job)
        },
        Phase::Announcing => spec_enforce(job),
        Phase::Enforcing => (Phase::Done, ActionView::Finish { ok: event is Succeeded }),
        Phase::Done => (Phase::Done, ActionView::Finish { ok: true }),
    }
}

/// Reads the id of the moderation-log channel from a guild's row.
pub fn modlog_channel(guild: &Guild) -> (r: Option<u64>)
    ensures
        r == spec_modlog_channel(guild@),
{
    match &guild.mod_id {
        Some(id) => parse_u64(id.as_str()),
        None => None,
    }
}

fn confirm(job: &Moderation) -> (r: (Phase, Action))
    ensures
        (r.0, r.1@) == spec_confirm(job@),
{
    (
        Phase::Confirming,
        Action::Reply(send_mod_msg_to_channel(&job.mod_type, &job.target, &job.reason)),
    )
}

fn enforce(job: &Moderation) -> (r: (Phase, Action))
    ensures
        (r.0, r.1@) == spec_enforce(job@),
{
    match job.mod_type {
        InfractionType::Ban => (
            Phase::Enforcing,
            Action::Ban {
                user_id: job.target.id,
                delete_message_days: 7,
                reason: job.reason.clone(),
            },
        ),
        InfractionType::Kick => (
            Phase::Enforcing,
            Action::Kick { user_id: job.target.id, reason: job.reason.clone() },
        ),
        _ => (Phase::Done, Action::Finish { ok: true }),
    }
}

/// Takes a moderation command one step further: given the phase it is in and
/// what came of the action that was under way, returns the phase it enters
/// and the action to carry out next. The first call is made in `Phase::Start`,
/// where the event is not looked at; the command is over when the action is
/// `Finish`.
pub fn handle_moderation(job: &Moderation, phase: Phase, event: &Event) -> (r: (Phase, Action))
    ensures
        (r.0, r.1@) == spec_handle_moderation(job@, phase, event@),
{
    match phase {
        Phase::Start => match &job.refusal {
            Some(e) => (Phase::Refusing, Action::SendError(e.clone())),
            None => match send_mod_msg_to_user(
                &job.mod_type,
                &job.target,
                job.guild_name.as_str(),
                &job.reason,
            ) {
                Some(e) => (
                    Phase::Notifying,
                    Action::DirectMessage { user_id: job.target.id, embed: e },
                ),
                None => confirm(job),
            },
        },
        Phase::Refusing => (Phase::Done, Action::Finish { ok: true }),
        Phase::Notifying => confirm(job),
        Phase::Confirming => {
            let infraction = Infraction {
                guild_id: decimal_string(job.guild_id),
                member_id: decimal_string(job.target.id),
                moderator_id: decimal_string(job.moderator.id),
                reason: job.reason.clone(),
                infraction_type: job.mod_type,
                created_at: None,
            };
            (Phase::Recording, Action::InsertInfraction(infraction))
        },
        Phase::Recording => (Phase::FetchingGuild, Action::GetGuild(decimal_string(job.guild_id))),
        Phase::FetchingGuild => match event {
            Event::Guild(Some(g)) => match modlog_channel(g) {
                Some(n) => (Phase::ResolvingModlog(n), Action::GetChannel(n)),
                None => enforce(job),
            },
            _ => (Phase::CountingGuild, Action::CountGuild(decimal_string(job.guild_id))),
        },
        Phase::CountingGuild => {
            let count = match event {
                Event::Count(c) => *c,
                _ => None,
            };
            if count_says_exists(count) {
                enforce(job)
            } else {
                (
                    Phase::CreatingGuild,
                    Action::InsertGuild(Guild::unconfigured(decimal_string(job.guild_id))),
                )
            }
        },
        Phase::CreatingGuild => enforce(job),
        Phase::ResolvingModlog(n) => {
            let found = match event {
                Event::Succeeded => true,
                _ => false,
            };
            match send_mod_msg_to_modlog(&job.mod_type, &job.target, &job.reason, found) {
                Some(e) => (Phase::Announcing, Action::Post { channel_id: n, embed: e }),
                None => enforce(job),
            }
        },
        Phase::Announcing => enforce(job),
        Phase::Enforcing => {
            let ok = match event {
                Event::Succeeded => true,
                _ => false,
            };
            (Phase::Done, Action::Finish { ok })
        },
        Phase::Done => (Phase::Done, Action::Finish { ok: true }),
    }
}

/// The actions that a command gives rise to, in order, when it is in `phase`
/// and is handed `events`, one after the other. The first event is the one
/// that moves the command on from `phase`; each later event is what came of
/// the action before it.
pub open spec fn spec_run(job: ModerationView, phase: Phase, events: Seq<EventView>) -> Seq<
    ActionView,
>
    decreases events.len(),
{
    if events.len() == 0 {
        seq![]
    } else {
        let step = spec_handle_moderation(job, phase, events[0]);
        seq![step.1] + spec_run(job, step.0, events.drop_first())
    }
}

/// The place of an action in the order of the workflow.
pub open spec fn spec_rank(action: ActionView) -> int {
    match action {
        ActionView::SendError(_) => 0,
        ActionView::DirectMessage { .. } => 0,
        ActionView::Reply(_) => 1,
        ActionView::InsertInfraction(_) => 2,
        ActionView::GetGuild(_) => 3,
        ActionView::CountGuild(_) => 4,
        ActionView::GetChannel(_) => 4,
        ActionView::InsertGuild(_) => 5,
        ActionView::Post { .. } => 5,
        ActionView::Ban { .. } => 6,
        ActionView::Kick { .. } => 6,
        ActionView::Finish { .. } => 7,
    }
}

/// The lowest place of any action that a command in `phase` can still give
/// rise to.
pub open spec fn spec_floor(phase: Phase) -> int {
    match phase {
        Phase::Start => 0,
        Phase::Notifying => 1,
        Phase::Confirming => 2,
        Phase::Recording => 3,
        Phase::FetchingGuild => 4,
        Phase::CountingGuild => 5,
        Phase::ResolvingModlog(_) => 5,
        Phase::CreatingGuild => 6,
        Phase::Announcing => 6,
        Phase::Refusing => 7,
        Phase::Enforcing => 7,
        Phase::Done => 7,
    }
}

/// A run gives one action for each event.
pub proof fn lemma_run_len(job: ModerationView, phase: Phase, events: Seq<EventView>)
    ensures
        spec_run(job, phase, events).len() == events.len(),
    decreases events.len(),
{
    if events.len() > 0 {
        let step = spec_handle_moderation(job, phase, events[0]);
        lemma_run_len(job, step.0, events.drop_first());
    }
}

/// No action of a run stands below the floor of the phase the run starts in.
pub proof fn lemma_run_above_floor(job: ModerationView, phase: Phase, events: Seq<EventView>)
    ensures
        forall|i: int|
            0 <= i < spec_run(job, phase, events).len() ==> spec_floor(phase) <= spec_rank(
                #[trigger] spec_run(job, phase, events)[i],
            ),
    decreases events.len(),
{
    if events.len() > 0 {
        let step = spec_handle_moderation(job, phase, events[0]);
        let rest = spec_run(job, step.0, events.drop_first());
        lemma_run_above_floor(job, step.0, events.drop_first());
        assert forall|i: int| 0 <= i < spec_run(job, phase, events).len() implies spec_floor(phase)
            <= spec_rank(#[trigger] spec_run(job, phase, events)[i]) by {
            if i > 0 {
                assert(spec_run(job, phase, events)[i] == rest[i - 1]);
            }
        }
    }
}

/// The workflow keeps its order: in every run, whatever the outcomes, each
/// action that is not the end stands strictly before all that follow it. So
/// no action is taken twice, the target is told before anything is written,
/// and the platform bans or kicks only after all the rest.
pub proof fn law_actions_in_order(job: ModerationView, phase: Phase, events: Seq<EventView>)
    ensures
        forall|i: int, j: int|
            #![trigger spec_run(job, phase, events)[i], spec_run(job, phase, events)[j]]
            0 <= i < j < spec_run(job, phase, events).len() && !(spec_run(job, phase, events)[i]
                is Finish) ==> spec_rank(spec_run(job, phase, events)[i]) < spec_rank(
                spec_run(job, phase, events)[j],
            ),
    decreases events.len(),
{
    if events.len() > 0 {
        let run = spec_run(job, phase, events);
        let step = spec_handle_moderation(job, phase, events[0]);
        let rest = spec_run(job, step.0, events.drop_first());
        law_actions_in_order(job, step.0, events.drop_first());
        lemma_run_above_floor(job, step.0, events.drop_first());
        assert forall|i: int, j: int|
            #![trigger run[i], run[j]]
            0 <= i < j < run.len() && !(run[i] is Finish) implies spec_rank(run[i]) < spec_rank(
            run[j],
        ) by {
            assert(run[j] == rest[j - 1]);
            if i > 0 {
                assert(run[i] == rest[i - 1]);
            } else {
                assert(run[0] == step.1);
                assert(spec_rank(step.1) < spec_floor(step.0));
            }
        }
    }
}

/// Once a command is over it stays over.
pub proof fn lemma_done_stays_done(job: ModerationView, events: Seq<EventView>)
    ensures
        forall|i: int|
            0 <= i < spec_run(job, Phase::Done, events).len() ==> #[trigger] spec_run(
                job,
                Phase::Done,
                events,
            )[i] == (ActionView::Finish { ok: true }),
    decreases events.len(),
{
    if events.len() > 0 {
        let rest = spec_run(job, Phase::Done, events.drop_first());
        lemma_done_stays_done(job, events.drop_first());
        assert forall|i: int| 0 <= i < spec_run(job, Phase::Done, events).len() implies spec_run(
            job,
            Phase::Done,
            events,
        )[i] == (ActionView::Finish { ok: true }) by {
            if i > 0 {
                assert(spec_run(job, Phase::Done, events)[i] == rest[i - 1]);
            }
        }
    }
}

/// A refused command does nothing but send the refusal: whatever the
/// outcomes, no message goes to the target, nothing is written, and the
/// platform is asked for no ban or kick.
pub proof fn law_refused_command_only_refuses(job: ModerationView, events: Seq<EventView>)
    requires
        job.refusal is Some,
    ensures
        forall|i: int|
            0 <= i < spec_run(job, Phase::Start, events).len() ==> #[trigger] spec_run(
                job,
                Phase::Start,
                events,
            )[i] == (if i == 0 {
                ActionView::SendError(job.refusal->0)
            } else {
                ActionView::Finish { ok: true }
            }),
{
    if events.len() > 0 {
        let run = spec_run(job, Phase::Start, events);
        let after = events.drop_first();
        let rest = spec_run(job, Phase::Refusing, after);
        assert(run == seq![ActionView::SendError(job.refusal->0)] + rest);
        if after.len() > 0 {
            let tail = spec_run(job, Phase::Done, after.drop_first());
            lemma_done_stays_done(job, after.drop_first());
            assert(rest == seq![ActionView::Finish { ok: true }] + tail);
            assert forall|i: int| 0 < i < run.len() implies #[trigger] run[i] == (
            ActionView::Finish { ok: true }) by {
                assert(run[i] == rest[i - 1]);
                if i > 1 {
                    assert(rest[i - 1] == tail[i - 2]);
                }
            }
        }
    }
}

/// A command that is not refused is carried through, whatever comes of the
/// single actions: the target is told first (unless it is a bot), then the
/// confirmation is posted, the infraction is written and the guild's row is
/// looked up; and after at most two more actions the platform is asked for
/// the ban or kick, or, for a mute or a warning, the command ends.
pub proof fn law_permitted_command_is_carried_through(
    job: ModerationView,
    events: Seq<EventView>,
)
    requires
        job.refusal is None,
        events.len() >= 7,
    ensures
        ({
            let run = spec_run(job, Phase::Start, events);
            let told: int = if job.target.bot {
                0
            } else {
                1
            };
            &&& !job.target.bot ==> run[0] == (ActionView::DirectMessage {
                user_id: job.target.id,
                embed: spec_mod_msg_to_user(
                    job.mod_type,
                    job.target,
                    job.guild_name,
                    job.reason,
                )->0,
            })
            &&& run[told] == ActionView::Reply(
                spec_mod_msg_to_channel(job.mod_type, job.target, job.reason),
            )
            &&& run[told + 1] == ActionView::InsertInfraction(spec_infraction(job))
            &&& run[told + 2] == ActionView::GetGuild(decimal(job.guild_id as nat))
            &&& exists|k: int|
                told + 3 <= k <= told + 5 && #[trigger] run[k] == spec_enforce(job).1 && forall|
                    i: int,
                |
                    0 <= i < k ==> !(#[trigger] run[i] is Ban) && !(run[i] is Kick) && !(run[i]
                        is Finish)
        }),
{
    reveal_with_fuel(spec_run, 8);
    lemma_run_len(job, Phase::Start, events);
    let run = spec_run(job, Phase::Start, events);
    let told: int = if job.target.bot {
        0
    } else {
        1
    };
    let e0 = events;
    let e1 = e0.drop_first();
    let e2 = e1.drop_first();
    let e3 = e2.drop_first();
    let e4 = e3.drop_first();
    let e5 = e4.drop_first();
    let e6 = e5.drop_first();
    let s0 = spec_handle_moderation(job, Phase::Start, e0[0]);
    let s1 = spec_handle_moderation(job, s0.0, e1[0]);
    let s2 = spec_handle_moderation(job, s1.0, e2[0]);
    let s3 = spec_handle_moderation(job, s2.0, e3[0]);
    let s4 = spec_handle_moderation(job, s3.0, e4[0]);
    let s5 = spec_handle_moderation(job, s4.0, e5[0]);
    let s6 = spec_handle_moderation(job, s5.0, e6[0]);
    assert(run[0] == s0.1);
    assert(run[1] == s1.1);
    assert(run[2] == s2.1);
    assert(run[3] == s3.1);
    assert(run[4] == s4.1);
    assert(run[5] == s5.1);
    assert(run[6] == s6.1);
    let k: int = if run[told + 3] == spec_enforce(job).1 {
        told + 3
    } else if run[told + 4] == spec_enforce(job).1 {
        told + 4
    } else {
        told + 5
    };
    assert(run[k] == spec_enforce(job).1);
    assert forall|i: int| 0 <= i < k implies !(#[trigger] run[i] is Ban) && !(run[i] is Kick) && !(
    run[i] is Finish) by {}
}

/// The action after a ban or a kick ends the command, and says whether the
/// platform carried the ban or kick out.
pub proof fn law_enforcement_ends_the_command(
    job: ModerationView,
    phase: Phase,
    events: Seq<EventView>,
    k: int,
)
    requires
        0 <= k,
        k + 1 < events.len(),
        spec_run(job, phase, events)[k] is Ban || spec_run(job, phase, events)[k] is Kick,
    ensures
        spec_run(job, phase, events)[k + 1] == (ActionView::Finish {
            ok: events[k + 1] is Succeeded,
        }),
    decreases k,
{
    let step = spec_handle_moderation(job, phase, events[0]);
    let rest = events.drop_first();
    lemma_run_len(job, step.0, rest);
    assert(spec_run(job, phase, events)[k + 1] == spec_run(job, step.0, rest)[k]);
    if k == 0 {
        assert(spec_run(job, phase, events)[0] == step.1);
        assert(step.0 == Phase::Enforcing);
        let next = spec_handle_moderation(job, step.0, rest[0]);
        lemma_run_len(job, next.0, rest.drop_first());
        assert(spec_run(job, step.0, rest)[0] == next.1);
        assert(rest[0] == events[1]);
    } else {
        assert(spec_run(job, phase, events)[k] == spec_run(job, step.0, rest)[k - 1]);
        law_enforcement_ends_the_command(job, step.0, rest, k - 1);
        assert(rest[k] == events[k + 1]);
    }
}

} // verus!
