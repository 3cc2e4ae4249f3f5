//! The static command catalogue: the slash commands the bot registers with
//! every guild it is installed into.

use vstd::prelude::*;

use crate::opt_str_view;

verus! {

/// The kind of a slash command; plain chat input unless said otherwise.
#[derive(Clone, Copy, Debug, PartialEq, Eq, Structural)]
pub enum ApplicationCommandType {
    ChatInput,
    User,
    Message,
    PrimaryEntryPoint,
}

/// The number the wire protocol uses for a command kind.
pub open spec fn spec_application_command_type_code(t: ApplicationCommandType) -> u8 {
    match t {
        ApplicationCommandType::ChatInput => 1,
        ApplicationCommandType::User => 2,
        ApplicationCommandType::Message => 3,
        ApplicationCommandType::PrimaryEntryPoint => 4,
    }
}

pub fn application_command_type_code(t: ApplicationCommandType) -> (r: u8)
    ensures
        r == spec_application_command_type_code(t),
{
    match t {
        ApplicationCommandType::ChatInput => 1,
        ApplicationCommandType::User => 2,
        ApplicationCommandType::Message => 3,
        ApplicationCommandType::PrimaryEntryPoint => 4,
    }
}

/// One catalogue entry.
pub struct GuildCommand {
    name: String,
    command_type: ApplicationCommandType,
    description: Option<String>,
}

/// The mathematical image of a catalogue entry.
pub ghost struct GuildCommandView {
    pub name: Seq<char>,
    pub command_type: ApplicationCommandType,
    pub description: Option<Seq<char>>,
}

impl View for GuildCommand {
    type V = GuildCommandView;

    closed spec fn view(&self) -> GuildCommandView {
        GuildCommandView {
            name: self.name@,
            command_type: self.command_type,
            description: opt_str_view(self.description),
        }
    }
}

impl GuildCommand {
    /// A chat-input command with the given name and description.
    pub fn new(name: String, description: Option<String>) -> (r: GuildCommand)
        ensures
            r@.name == name@,
            r@.command_type is ChatInput,
            r@.description == opt_str_view(description),
    {
        GuildCommand { name, command_type: ApplicationCommandType::ChatInput, description }
    }

    pub fn name(&self) -> (r: &String)
        ensures
            r@ == self@.name,
    {
        &self.name
    }

    pub fn command_type(&self) -> (r: ApplicationCommandType)
        ensures
            r == self@.command_type,
    {
        self.command_type
    }

    pub fn description(&self) -> (r: &Option<String>)
        ensures
            opt_str_view(*r) == self@.description,
    {
        &self.description
    }
}

/// Where the platform's API lives.
pub const DISCORD_API_BASE_URL: &'static str = "https://discord.com/api/v10";

/// The per-guild command-registration endpoint for one guild of one
/// application: `{api-base}/applications/{application_id}/guilds/{guild_id}/commands`.
pub fn command_registration_url(api_base: &str, application_id: &str, guild_id: &str) -> (r:
    String)
    ensures
        r@ == api_base@ + "/applications/"@ + application_id@ + "/guilds/"@ + guild_id@
            + "/commands"@,
{
    let mut r = String::new();
    r.append(api_base);
    r.append("/applications/");
    r.append(application_id);
    r.append("/guilds/");
    r.append(guild_id);
    r.append("/commands");
    proof {
        assert(r@ =~= api_base@ + "/applications/"@ + application_id@ + "/guilds/"@ + guild_id@
            + "/commands"@);
    }
    r
}

/// The catalogue the process starts with: `ping` and `hello`.
pub fn default_commands() -> (r: Vec<GuildCommand>)
    ensures
        r@.len() == 2,
        r@[0]@.name == "ping"@ && r@[0]@.description == Some("Replies with Pong!"@) && r@[0]@
            .command_type is ChatInput,
        r@[1]@.name == "hello"@ && r@[1]@.description == Some("Replies with Hello, World!"@) && r@[
            1]@.command_type is ChatInput,
{
    let mut r: Vec<GuildCommand> = Vec::new();
    r.push(GuildCommand::new(String::from_str("ping"), Some(String::from_str(
        "Replies with Pong!"))));
    r.push(GuildCommand::new(String::from_str("hello"), Some(String::from_str(
        "Replies with Hello, World!"))));
    r
}

} // verus!
