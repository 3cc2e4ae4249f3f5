//! The inbound interaction payload and the outbound interaction response:
//! the transient data a single callback carries, and the number codes the
//! wire protocol uses for their kinds.

use vstd::prelude::*;

use crate::opt_str_view;

verus! {

/// What kind of callback the platform sent.
#[derive(Clone, Copy, Debug, PartialEq, Eq, Structural)]
pub enum InteractionType {
    Ping,
    ApplicationCommand,
    MessageComponent,
    ApplicationCommandAutocomplete,
    ModalSubmit,
}

/// The number the wire protocol uses for an interaction type.
pub open spec fn spec_interaction_type_code(t: InteractionType) -> u8 {
    match t {
        InteractionType::Ping => 1,
        InteractionType::ApplicationCommand => 2,
        InteractionType::MessageComponent => 3,
        InteractionType::ApplicationCommandAutocomplete => 4,
        InteractionType::ModalSubmit => 5,
    }
}

pub fn interaction_type_code(t: InteractionType) -> (r: u8)
    ensures
        r == spec_interaction_type_code(t),
{
    match t {
        InteractionType::Ping => 1,
        InteractionType::ApplicationCommand => 2,
        InteractionType::MessageComponent => 3,
        InteractionType::ApplicationCommandAutocomplete => 4,
        InteractionType::ModalSubmit => 5,
    }
}

/// The interaction type a wire code denotes, if any.
pub open spec fn spec_interaction_type_from_code(c: u8) -> Option<InteractionType> {
    if c == 1 {
        Some(InteractionType::Ping)
    } else if c == 2 {
        Some(InteractionType::ApplicationCommand)
    } else if c == 3 {
        Some(InteractionType::MessageComponent)
    } else if c == 4 {
        Some(InteractionType::ApplicationCommandAutocomplete)
    } else if c == 5 {
        Some(InteractionType::ModalSubmit)
    } else {
        None
    }
}

pub fn interaction_type_from_code(c: u8) -> (r: Option<InteractionType>)
    ensures
        r == spec_interaction_type_from_code(c),
        r matches Some(t) ==> spec_interaction_type_code(t) == c,
{
    if c == 1 {
        Some(InteractionType::Ping)
    } else if c == 2 {
        Some(InteractionType::ApplicationCommand)
    } else if c == 3 {
        Some(InteractionType::MessageComponent)
    } else if c == 4 {
        Some(InteractionType::ApplicationCommandAutocomplete)
    } else if c == 5 {
        Some(InteractionType::ModalSubmit)
    } else {
        None
    }
}

/// The kind of response the service answers with.
#[derive(Clone, Copy, Debug, PartialEq, Eq, Structural)]
pub enum InteractionResponseType {
    Pong,
    ChannelMessageWithSource,
    DeferredChannelMessageWithSource,
    DeferredUpdateMessage,
    UpdateMessage,
}

/// The number the wire protocol uses for a response kind.
pub open spec fn spec_response_type_code(t: InteractionResponseType) -> u8 {
    match t {
        InteractionResponseType::Pong => 1,
        InteractionResponseType::ChannelMessageWithSource => 4,
        InteractionResponseType::DeferredChannelMessageWithSource => 5,
        InteractionResponseType::DeferredUpdateMessage => 6,
        InteractionResponseType::UpdateMessage => 7,
    }
}

pub fn response_type_code(t: InteractionResponseType) -> (r: u8)
    ensures
        r == spec_response_type_code(t),
{
    match t {
        InteractionResponseType::Pong => 1,
        InteractionResponseType::ChannelMessageWithSource => 4,
        InteractionResponseType::DeferredChannelMessageWithSource => 5,
        InteractionResponseType::DeferredUpdateMessage => 6,
        InteractionResponseType::UpdateMessage => 7,
    }
}

/// A user of the platform, as an interaction payload carries one.
pub struct User {
    pub id: String,
    pub username: String,
    pub discriminator: String,
    pub avatar: Option<String>,
}

/// The invoking guild member.
pub struct GuildMember {
    pub user: Option<User>,
    pub nick: Option<String>,
    pub roles: Vec<String>,
    pub joined_at: String,
}

/// The command payload of an application-command interaction; `options`
/// carries opaque structured arguments as text.
pub struct InteractionData {
    pub id: Option<String>,
    pub name: Option<String>,
    pub options: Option<Vec<String>>,
}

/// One inbound callback. Created per request, never persisted.
pub struct Interaction {
    pub id: String,
    pub interaction_type: InteractionType,
    pub guild_id: Option<String>,
    pub channel_id: Option<String>,
    pub member: Option<GuildMember>,
    pub user: Option<User>,
    pub token: String,
    pub version: i32,
    pub data: Option<InteractionData>,
}

/// The body of a response; `embeds` carries opaque structured documents as
/// text.
pub struct InteractionResponseData {
    pub content: Option<String>,
    pub embeds: Option<Vec<String>>,
    pub flags: Option<u32>,
}

/// The one response produced per accepted request.
pub struct InteractionResponse {
    pub response_type: InteractionResponseType,
    pub data: Option<InteractionResponseData>,
}

/// The mathematical image of a response body.
pub ghost struct ResponseDataView {
    pub content: Option<Seq<char>>,
    pub embeds: Option<Seq<Seq<char>>>,
    pub flags: Option<u32>,
}

/// The mathematical image of a response.
pub ghost struct ResponseView {
    pub response_type: InteractionResponseType,
    pub data: Option<ResponseDataView>,
}

impl View for InteractionResponseData {
    type V = ResponseDataView;

    open spec fn view(&self) -> ResponseDataView {
        ResponseDataView {
            content: opt_str_view(self.content),
            embeds: match self.embeds {
                Some(v) => Some(v@.map_values(|s: String| s@)),
                None => None,
            },
            flags: self.flags,
        }
    }
}

impl View for InteractionResponse {
    type V = ResponseView;

    open spec fn view(&self) -> ResponseView {
        ResponseView {
            response_type: self.response_type,
            data: match self.data {
                Some(d) => Some(d@),
                None => None,
            },
        }
    }
}

/// The payload of a guild-creation event.
pub struct GuildCreatePayload {
    pub id: String,
    pub name: String,
    pub owner_id: String,
    pub joined_at: Option<String>,
}

} // verus!
