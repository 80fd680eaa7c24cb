//! The guild-lifecycle event handler's decisions. An inbound platform event
//! is reduced to a plan: log a line, or refresh the guild count and alert the
//! owner, or do nothing. The caller carries the plan out — it fetches the
//! authoritative guild list from the platform, sends the gauge point, and
//! delivers the owner's direct message — because each of those is I/O.

use vstd::prelude::*;

use crate::text::spec_u64_string;
use crate::text::u64_to_string;

verus! {

/// A platform event as the handler sees it. A guild-create carries the flag
/// the platform uses to tell a genuine join from a reconnect replay; a
/// guild-delete carries the guild's name only when the platform supplied the
/// full object.
pub enum BotEvent {
    Ready,
    GuildCreate { guild_id: u64, guild_name: String, is_new: Option<bool> },
    GuildDelete { guild_id: u64, full_name: Option<String> },
    Other,
}

/// What the caller must do for one event: log the message at info level,
/// or re-fetch the guild list and then report `joined`/left for the named
/// guild, or nothing.
pub enum EventPlan {
    LogInfo { message: String },
    RefreshGuilds { joined: bool, guild_id: u64, guild_name: Option<String> },
    Ignore,
}

/// Plans one event. Ready logs `online`; a guild-create counts as a join
/// unless the platform explicitly said it is not new; a guild-delete always
/// refreshes, since the platform's running count is not authoritative; every
/// other event is ignored.
pub fn plan_event(event: &BotEvent) -> (r: EventPlan)
    ensures
        event is Ready ==> (r matches EventPlan::LogInfo { message } && message@ == "online"@),
        event matches BotEvent::GuildCreate { guild_id: gid, guild_name: gname, is_new: inew }
            ==> ((inew == Some(false) ==> r is Ignore) && (inew != Some(false) ==> (
        r matches EventPlan::RefreshGuilds { joined, guild_id: pid, guild_name: pname } && joined
            && pid == gid && pname == Some(*gname)))),
        event matches BotEvent::GuildDelete { guild_id: gid, full_name: fname } ==> (
        r matches EventPlan::RefreshGuilds { joined, guild_id: pid, guild_name: pname } && !joined
            && pid == gid && pname == fname),
        event is Other ==> r is Ignore,
{
    match event {
        BotEvent::Ready => EventPlan::LogInfo { message: String::from_str("online") },
        BotEvent::GuildCreate { guild_id, guild_name, is_new } => {
            let fresh = match is_new {
                Some(b) => *b,
                None => true,
            };
            if fresh {
                EventPlan::RefreshGuilds {
                    joined: true,
                    guild_id: *guild_id,
                    guild_name: Some(guild_name.clone()),
                }
            } else {
                EventPlan::Ignore
            }
        },
        BotEvent::GuildDelete { guild_id, full_name } => {
            let name = match full_name {
                Some(n) => Some(n.clone()),
                None => None,
            };
            EventPlan::RefreshGuilds { joined: false, guild_id: *guild_id, guild_name: name }
        },
        BotEvent::Other => EventPlan::Ignore,
    }
}

/// The owner's alert for one lifecycle transition: the direction, the guild's
/// name in backticks (or `<unknown>` when the platform withheld it), its id,
/// and the freshly observed server count.
pub open spec fn spec_guild_status_message(
    joined: bool,
    guild_name: Option<Seq<char>>,
    guild_id: nat,
    guild_count: nat,
) -> Seq<char> {
    (if joined {
        "joined"@
    } else {
        "left"@
    }) + " guild `"@ + (match guild_name {
        Some(n) => n,
        None => "<unknown>"@,
    }) + "`:"@ + spec_u64_string(guild_id) + " ["@ + spec_u64_string(guild_count) + " servers]"@
}

/// Renders the owner's alert, exactly as `spec_guild_status_message`
/// describes.
pub fn guild_status_message(
    joined: bool,
    guild_name: &Option<String>,
    guild_id: u64,
    guild_count: u64,
) -> (r: String)
    ensures
        r@ == spec_guild_status_message(
            joined,
            (match guild_name {
                Some(n) => Some(n@),
                None => None,
            }),
            guild_id as nat,
            guild_count as nat,
        ),
{
    let mut r = if joined {
        String::from_str("joined")
    } else {
        String::from_str("left")
    };
    r.append(" guild `");
    match guild_name {
        Some(n) => r.append(n.as_str()),
        None => r.append("<unknown>"),
    }
    r.append("`:");
    let id = u64_to_string(guild_id);
    r.append(id.as_str());
    r.append(" [");
    let count = u64_to_string(guild_count);
    r.append(count.as_str());
    r.append(" servers]");
    proof {
        assert(r@ =~= spec_guild_status_message(
            joined,
            (match guild_name {
                Some(n) => Some(n@),
                None => None,
            }),
            guild_id as nat,
            guild_count as nat,
        ));
    }
    r
}

} // verus!
