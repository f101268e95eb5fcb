use vstd::prelude::*;

verus! {

/// Where a reaction is mirrored.
#[derive(Clone, Copy, PartialEq, Eq, Structural, Debug)]
pub enum ReactionRoute {
    /// The bot's own reaction, or one outside tickets and direct messages: nothing is done.
    Ignore,
    /// A reaction in a ticket channel is mirrored on the user's direct message.
    ToDirectMessage { user_id: i64 },
    /// A reaction in a direct message is mirrored in the user's ticket.
    ToTicket,
}

/// The route of a reaction: the bot's own are skipped; one in a ticket channel
/// (whose user is `ticket_user`) goes to the user's direct messages; one
/// outside any guild goes to the ticket.
pub open spec fn reaction_route_spec(
    from_bot_itself: bool,
    ticket_user: Option<i64>,
    in_guild: bool,
) -> ReactionRoute {
    if from_bot_itself {
        ReactionRoute::Ignore
    } else {
        match ticket_user {
            Some(u) => ReactionRoute::ToDirectMessage { user_id: u },
            None => if !in_guild {
                ReactionRoute::ToTicket
            } else {
                ReactionRoute::Ignore
            },
        }
    }
}

/// Routes an added or removed reaction.
pub fn reaction_route(from_bot_itself: bool, ticket_user: Option<i64>, in_guild: bool) -> (r:
    ReactionRoute)
    ensures
        r == reaction_route_spec(from_bot_itself, ticket_user, in_guild),
{
    if from_bot_itself {
        ReactionRoute::Ignore
    } else {
        match ticket_user {
            Some(u) => ReactionRoute::ToDirectMessage { user_id: u },
            None => if !in_guild {
                ReactionRoute::ToTicket
            } else {
                ReactionRoute::Ignore
            },
        }
    }
}

/// The ids a stored ticket message is known by.
#[derive(Clone, Debug)]
pub struct MessageIds {
    pub dm_message_id: Option<String>,
    pub inbox_message_id: Option<String>,
}

/// The direct message that mirrors a ticket message (its stored DM id).
pub fn dm_mirror_id(ids: &MessageIds) -> (r: Option<String>)
    ensures
        r == ids.dm_message_id,
{
    ids.dm_message_id.clone()
}

/// The ticket message that mirrors a direct message: its stored inbox id when
/// it has one, else the reacted message itself.
pub fn ticket_mirror_id(ids: &MessageIds, reacted_message_id: String) -> (r: String)
    ensures
        r == match ids.inbox_message_id {
            Some(i) => i,
            None => reacted_message_id,
        },
{
    match &ids.inbox_message_id {
        Some(i) => i.clone(),
        None => reacted_message_id,
    }
}

/// Where a reaction is mirrored: never for the bot's own reactions; to the
/// ticket's user when it was made in a ticket channel; to the ticket when it was
/// made in a direct message; nowhere for other guild channels.
pub proof fn lemma_reaction_routes(from_bot_itself: bool, ticket_user: Option<i64>, in_guild: bool)
    ensures
        from_bot_itself ==> reaction_route_spec(from_bot_itself, ticket_user, in_guild)
            == ReactionRoute::Ignore,
        !from_bot_itself && ticket_user is Some ==> reaction_route_spec(
            from_bot_itself,
            ticket_user,
            in_guild,
        ) == (ReactionRoute::ToDirectMessage { user_id: ticket_user->0 }),
        !from_bot_itself && ticket_user is None && !in_guild ==> reaction_route_spec(
            from_bot_itself,
            ticket_user,
            in_guild,
        ) == ReactionRoute::ToTicket,
        !from_bot_itself && ticket_user is None && in_guild ==> reaction_route_spec(
            from_bot_itself,
            ticket_user,
            in_guild,
        ) == ReactionRoute::Ignore,
{
}

} // verus!
