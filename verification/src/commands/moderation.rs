//! The moderation commands: ban, kick and mute.

use crate::embed::{Embed, EmbedView};
use crate::structs::{GuildSnapshot, GuildSnapshotView, InfractionType, Member, MemberView};
use crate::text::decimal;
use crate::utils::{
    law_enforcement_ends_the_command, law_permitted_command_is_carried_through,
    law_refused_command_only_refuses, lemma_run_len, manageable, mention, roles_resolved,
    send_error_msg, spec_enforce, spec_error_msg, spec_highest_role_position, spec_infraction,
    spec_manageable, spec_mention, spec_run, ActionView, EventView, Moderation, ModerationView,
    Phase,
};
use vstd::prelude::*;
use vstd::string::*;

verus! {

/// Who stands too low to act on the target: the one who ran the command, the
/// bot, or both.
pub open spec fn spec_who(can_manage: bool, can_i_manage: bool) -> Seq<char> {
    if !can_manage && !can_i_manage {
        "you and I"@
    } else if !can_manage {
        "you"@
    } else {
        "me"@
    }
}

/// The text that refuses to act on the target.
pub open spec fn spec_refusal(
    target_id: u64,
    who: Seq<char>,
    infraction_type: InfractionType,
) -> Seq<char> {
    spec_mention(target_id) + " has a higher role than "@ + who
        + ", or is the owner of the server, so I cannot "@ + infraction_type.spec_label()
        + " them."@
}

/// The refusal that `check_manageable` composes; none where both the one who
/// ran the command and the bot may act on the target.
pub open spec fn spec_check_manageable(
    guild: GuildSnapshotView,
    author: MemberView,
    bot: MemberView,
    target: MemberView,
    infraction_type: InfractionType,
) -> Option<EmbedView> {
    let can_manage = spec_manageable(guild, author, target);
    let can_i_manage = spec_manageable(guild, bot, target);
    if can_manage && can_i_manage {
        None
    } else {
        Some(
            spec_error_msg(
                author.user,
                spec_refusal(target.user.id, spec_who(can_manage, can_i_manage), infraction_type),
            ),
        )
    }
}

/// Applies the permission rule twice, to the one who ran the command and to
/// the bot itself. Where both may act on the target the result is `None`;
/// otherwise it is the refusal to send, which names who stands too low.
pub fn check_manageable(
    guild: &GuildSnapshot,
    author: &Member,
    bot: &Member,
    target: &Member,
    infraction_type: InfractionType,
) -> (r: Option<Embed>)
    requires
        roles_resolved(guild@.roles, author@.roles),
        roles_resolved(guild@.roles, bot@.roles),
        roles_resolved(guild@.roles, target@.roles),
    ensures
        r is Some <==> !(spec_manageable(guild@, author@, target@) && spec_manageable(
            guild@,
            bot@,
            target@,
        )),
        r.deep_view() == spec_check_manageable(guild@, author@, bot@, target@, infraction_type),
{
    let can_manage = manageable(guild, author, target);
    let can_i_manage = manageable(guild, bot, target);
    if !can_manage || !can_i_manage {
        let who = if !can_manage && !can_i_manage {
            "you and I"
        } else if !can_manage {
            "you"
        } else {
            "me"
        };
        let mut text = mention(target.user.id);
        text.append(" has a higher role than ");
        text.append(who);
        text.append(", or is the owner of the server, so I cannot ");
        text.append(infraction_type.label());
        text.append(" them.");
        return Some(send_error_msg(&author.user, text.as_str()));
    }
    None
}

/// The reason that is recorded and shown where none was given.
pub open spec fn spec_reason(reason: Option<Seq<char>>) -> Seq<char> {
    match reason {
        Some(r) => r,
        None => "No reason provided"@,
    }
}

/// The moderation command that `ban`, `kick` and `mute` set up.
pub open spec fn spec_moderation(
    mod_type: InfractionType,
    guild: GuildSnapshotView,
    author: MemberView,
    bot: MemberView,
    target: MemberView,
    reason: Option<Seq<char>>,
) -> ModerationView {
    ModerationView {
        mod_type,
        guild_id: guild.id,
        guild_name: guild.name,
        moderator: author.user,
        target: target.user,
        reason: spec_reason(reason),
        refusal: spec_check_manageable(guild, author, bot, target, mod_type),
    }
}

fn moderation(
    mod_type: InfractionType,
    guild: &GuildSnapshot,
    author: &Member,
    bot: &Member,
    target: &Member,
    reason: Option<String>,
) -> (r: Moderation)
    requires
        roles_resolved(guild@.roles, author@.roles),
        roles_resolved(guild@.roles, bot@.roles),
        roles_resolved(guild@.roles, target@.roles),
    ensures
        r@ == spec_moderation(
            mod_type,
            guild@,
            author@,
            bot@,
            target@,
            reason.deep_view(),
        ),
{
    let refusal = check_manageable(guild, author, bot, target, mod_type);
    let reason = match reason {
        Some(r) => r,
        None => String::from_str("No reason provided"),
    };
    Moderation {
        mod_type,
        guild_id: guild.id,
        guild_name: guild.name.clone(),
        moderator: author.user.clone(),
        target: target.user.clone(),
        reason,
        refusal,
    }
}

/// Sets up the ban of `target` from the guild, asked for by `author`. The
/// command is then carried out step by step by `handle_moderation`.
pub fn ban(
    guild: &GuildSnapshot,
    author: &Member,
    bot: &Member,
    target: &Member,
    reason: Option<String>,
) -> (r: Moderation)
    requires
        roles_resolved(guild@.roles, author@.roles),
        roles_resolved(guild@.roles, bot@.roles),
        roles_resolved(guild@.roles, target@.roles),
    ensures
        r@ == spec_moderation(
            InfractionType::Ban,
            guild@,
            author@,
            bot@,
            target@,
            reason.deep_view(),
        ),
{
    moderation(InfractionType::Ban, guild, author, bot, target, reason)
}

/// Sets up the kick of `target` from the guild, asked for by `author`.
pub fn kick(
    guild: &GuildSnapshot,
    author: &Member,
    bot: &Member,
    target: &Member,
    reason: Option<String>,
) -> (r: Moderation)
    requires
        roles_resolved(guild@.roles, author@.roles),
        roles_resolved(guild@.roles, bot@.roles),
        roles_resolved(guild@.roles, target@.roles),
    ensures
        r@ == spec_moderation(
            InfractionType::Kick,
            guild@,
            author@,
            bot@,
            target@,
            reason.deep_view(),
        ),
{
    moderation(InfractionType::Kick, guild, author, bot, target, reason)
}

/// Sets up the mute of `target` in the guild, asked for by `author`. A mute
/// is recorded and announced; nothing restricts the target yet.
pub fn mute(
    guild: &GuildSnapshot,
    author: &Member,
    bot: &Member,
    target: &Member,
    reason: Option<String>,
) -> (r: Moderation)
    requires
        roles_resolved(guild@.roles, author@.roles),
        roles_resolved(guild@.roles, bot@.roles),
        roles_resolved(guild@.roles, target@.roles),
    ensures
        r@ == spec_moderation(
            InfractionType::Mute,
            guild@,
            author@,
            bot@,
            target@,
            reason.deep_view(),
        ),
{
    moderation(InfractionType::Mute, guild, author, bot, target, reason)
}

/// Whether an action writes an infraction or asks the platform for a ban or a
/// kick.
pub open spec fn spec_takes_effect(action: ActionView) -> bool {
    action is InsertInfraction || action is Ban || action is Kick
}

/// A command against a target whose highest role stands strictly above that
/// of the one who ran it is refused: the refusal names "you" (or "you and I",
/// where the bot stands too low as well), no infraction is written and the
/// platform is asked for no ban or kick, whatever the outcomes.
pub proof fn law_target_above_invoker_is_refused(
    mod_type: InfractionType,
    guild: GuildSnapshotView,
    author: MemberView,
    bot: MemberView,
    target: MemberView,
    reason: Option<Seq<char>>,
    events: Seq<EventView>,
)
    requires
        spec_highest_role_position(guild.roles, author.roles) < spec_highest_role_position(
            guild.roles,
            target.roles,
        ),
    ensures
        ({
            let job = spec_moderation(mod_type, guild, author, bot, target, reason);
            let who = if spec_manageable(guild, bot, target) {
                "you"@
            } else {
                "you and I"@
            };
            &&& job.refusal == Some(
                spec_error_msg(author.user, spec_refusal(target.user.id, who, mod_type)),
            )
            &&& forall|i: int|
                0 <= i < events.len() ==> !spec_takes_effect(
                    #[trigger] spec_run(job, Phase::Start, events)[i],
                )
        }),
{
    let job = spec_moderation(mod_type, guild, author, bot, target, reason);
    lemma_run_len(job, Phase::Start, events);
    law_refused_command_only_refuses(job, events);
}

/// A command against a target whose highest role stands strictly above the
/// bot's own is refused in the same way: the refusal names "me" (or "you and
/// I", where the one who ran the command stands too low as well), no
/// infraction is written and the platform is asked for no ban or kick.
pub proof fn law_target_above_bot_is_refused(
    mod_type: InfractionType,
    guild: GuildSnapshotView,
    author: MemberView,
    bot: MemberView,
    target: MemberView,
    reason: Option<Seq<char>>,
    events: Seq<EventView>,
)
    requires
        spec_highest_role_position(guild.roles, bot.roles) < spec_highest_role_position(
            guild.roles,
            target.roles,
        ),
    ensures
        ({
            let job = spec_moderation(mod_type, guild, author, bot, target, reason);
            let who = if spec_manageable(guild, author, target) {
                "me"@
            } else {
                "you and I"@
            };
            &&& job.refusal == Some(
                spec_error_msg(author.user, spec_refusal(target.user.id, who, mod_type)),
            )
            &&& forall|i: int|
                0 <= i < events.len() ==> !spec_takes_effect(
                    #[trigger] spec_run(job, Phase::Start, events)[i],
                )
        }),
{
    let job = spec_moderation(mod_type, guild, author, bot, target, reason);
    lemma_run_len(job, Phase::Start, events);
    law_refused_command_only_refuses(job, events);
}

/// A ban that the permission rule allows is carried through, whether or not
/// the direct message reaches the target: the message is attempted first
/// (unless the target is a bot), then the infraction is written, with the
/// kind "ban" and the given reason (the default reason where none was
/// given), and the platform is asked for the ban only after both; the action
/// after the ban ends the command. This holds of every run of eight events
/// or more, which is as long as a command can take.
pub proof fn law_permitted_ban_is_recorded_then_enforced(
    guild: GuildSnapshotView,
    author: MemberView,
    bot: MemberView,
    target: MemberView,
    reason: Option<Seq<char>>,
    events: Seq<EventView>,
)
    requires
        spec_manageable(guild, author, target),
        spec_manageable(guild, bot, target),
        events.len() >= 8,
    ensures
        ({
            let job = spec_moderation(InfractionType::Ban, guild, author, bot, target, reason);
            let run = spec_run(job, Phase::Start, events);
            let told: int = if target.user.bot {
                0
            } else {
                1
            };
            &&& !target.user.bot ==> run[0] is DirectMessage && run[0]->DirectMessage_user_id
                == target.user.id
            &&& run[told + 1] is InsertInfraction
            &&& run[told + 1]->InsertInfraction_0 == spec_infraction(job)
            &&& run[told + 1]->InsertInfraction_0.infraction_type.spec_label() == "ban"@
            &&& run[told + 1]->InsertInfraction_0.member_id == decimal(target.user.id as nat)
            &&& run[told + 1]->InsertInfraction_0.reason == spec_reason(reason)
            &&& reason is None ==> run[told + 1]->InsertInfraction_0.reason
                == "No reason provided"@
            &&& exists|k: int|
                told + 3 <= k <= told + 5 && #[trigger] run[k] == (ActionView::Ban {
                    user_id: target.user.id,
                    delete_message_days: 7,
                    reason: spec_reason(reason),
                }) && run[k + 1] == (ActionView::Finish { ok: events[k + 1] is Succeeded })
        }),
{
    let job = spec_moderation(InfractionType::Ban, guild, author, bot, target, reason);
    let run = spec_run(job, Phase::Start, events);
    let told: int = if target.user.bot {
        0
    } else {
        1
    };
    law_permitted_command_is_carried_through(job, events);
    let k = choose|k: int|
        told + 3 <= k <= told + 5 && #[trigger] run[k] == spec_enforce(job).1 && forall|i: int|
            0 <= i < k ==> !(#[trigger] run[i] is Ban) && !(run[i] is Kick) && !(run[i] is Finish);
    law_enforcement_ends_the_command(job, Phase::Start, events, k);
}

} // verus!
