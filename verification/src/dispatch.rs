//! The dispatcher: classifies a verified interaction, registers the calling
//! guild as a side effect, and says which guild the command catalogue should
//! be published to. A liveness ping is answered directly and touches
//! nothing.

use vstd::prelude::*;

use crate::interactions::{Interaction, InteractionResponse, InteractionResponseData,
    InteractionResponseType, InteractionType, ResponseDataView, ResponseView};
use crate::repository::{spec_find_or_create, store_has, store_row, store_wf, GuildRepository};

verus! {

/// The command name an interaction invokes; empty when the payload carries
/// none.
pub open spec fn spec_command_name(i: Interaction) -> Seq<char> {
    match i.data {
        Some(d) => match d.name {
            Some(n) => n@,
            None => Seq::empty(),
        },
        None => Seq::empty(),
    }
}

/// What the bot says back for a command name: its designated reply for a
/// known name, a fallback for an unknown one.
pub open spec fn spec_command_reply(name: Seq<char>) -> Seq<char> {
    if name == "ping"@ {
        "Pong!"@
    } else if name == "hello"@ {
        "Hello, World!"@
    } else {
        "Unknown command"@
    }
}

/// A plain text message response.
pub open spec fn spec_message_response(content: Seq<char>) -> ResponseView {
    ResponseView {
        response_type: InteractionResponseType::ChannelMessageWithSource,
        data: Some(ResponseDataView { content: Some(content), embeds: None, flags: None }),
    }
}

/// The response every interaction type maps to: pong for a ping, the
/// command reply for an application command, and — for the types whose real
/// handling is out of scope — the same fallback reply an unknown command
/// gets.
pub open spec fn spec_response(i: Interaction) -> ResponseView {
    match i.interaction_type {
        InteractionType::Ping => ResponseView {
            response_type: InteractionResponseType::Pong,
            data: None,
        },
        InteractionType::ApplicationCommand => spec_message_response(spec_command_reply(
            spec_command_name(i))),
        _ => spec_message_response("Unknown command"@),
    }
}

fn message_response(content: String) -> (r: InteractionResponse)
    ensures
        r@ == spec_message_response(content@),
{
    InteractionResponse {
        response_type: InteractionResponseType::ChannelMessageWithSource,
        data: Some(InteractionResponseData { content: Some(content), embeds: None, flags: None }),
    }
}

/// Answers an application command from the static name-to-reply mapping.
pub fn handle_application_command(interaction: &Interaction) -> (r: InteractionResponse)
    ensures
        r@ == spec_message_response(spec_command_reply(spec_command_name(*interaction))),
{
    let empty = String::new();
    let command_name: &String = match &interaction.data {
        Some(d) => match &d.name {
            Some(n) => n,
            None => &empty,
        },
        None => &empty,
    };
    let reply = if *command_name == String::from_str("ping") {
        String::from_str("Pong!")
    } else if *command_name == String::from_str("hello") {
        String::from_str("Hello, World!")
    } else {
        String::from_str("Unknown command")
    };
    message_response(reply)
}

/// Handles one verified interaction. The response is exactly
/// `spec_response`; a ping leaves the store untouched and publishes
/// nothing; any other interaction that names a guild is first registered
/// through find-or-create, and that guild is handed back so the command
/// catalogue can be published to it.
pub fn handle_interaction(interaction: &Interaction, repo: &mut GuildRepository, now: i64) -> (r:
    (InteractionResponse, Option<String>))
    requires
        store_wf(old(repo)@),
        old(repo)@.next_id < i64::MAX,
        match interaction.guild_id {
            Some(gid) => !(interaction.interaction_type is Ping) && store_has(old(repo)@, gid@)
                && !store_row(old(repo)@, gid@).is_active ==> now as int >= store_row(old(repo)@,
                gid@).updated_at,
            None => true,
        },
    ensures
        store_wf(final(repo)@),
        r.0@ == spec_response(*interaction),
        interaction.interaction_type is Ping ==> final(repo)@ == old(repo)@ && r.1 is None,
        !(interaction.interaction_type is Ping) ==> match interaction.guild_id {
            Some(gid) => final(repo)@ == spec_find_or_create(old(repo)@, gid@, None, None,
                now as int).0 && (r.1 matches Some(g) && g@ == gid@),
            None => final(repo)@ == old(repo)@ && r.1 is None,
        },
{
    match interaction.interaction_type {
        InteractionType::Ping => {
            let response = InteractionResponse {
                response_type: InteractionResponseType::Pong,
                data: None,
            };
            (response, None)
        },
        _ => {
            let publish_to: Option<String> = match &interaction.guild_id {
                Some(gid) => {
                    let _ = repo.find_or_create(gid.clone(), None, None, now);
                    Some(gid.clone())
                },
                None => None,
            };
            let response = match interaction.interaction_type {
                InteractionType::ApplicationCommand => handle_application_command(interaction),
                _ => message_response(String::from_str("Unknown command")),
            };
            (response, publish_to)
        },
    }
}

} // verus!
