//! The persistent guild aggregate: one row per workspace the bot is
//! installed into, keyed by the platform-assigned guild identifier.

use vstd::prelude::*;

use crate::opt_str_view;

verus! {

/// A guild row. Timestamps are seconds since the epoch; `settings` holds an
/// opaque structured document as text, `{}` when nothing was ever stored.
pub struct Model {
    /// Storage-assigned numeric id.
    pub id: i64,
    /// The platform's guild identifier; unique across rows.
    pub guild_id: String,
    pub guild_name: Option<String>,
    pub owner_id: Option<String>,
    pub joined_at: i64,
    /// False when the guild was soft-deleted.
    pub is_active: bool,
    pub settings: String,
    pub created_at: i64,
    pub updated_at: i64,
}

/// The mathematical image of a guild row.
pub ghost struct GuildView {
    pub id: int,
    pub guild_id: Seq<char>,
    pub guild_name: Option<Seq<char>>,
    pub owner_id: Option<Seq<char>>,
    pub joined_at: int,
    pub is_active: bool,
    pub settings: Seq<char>,
    pub created_at: int,
    pub updated_at: int,
}

impl View for Model {
    type V = GuildView;

    open spec fn view(&self) -> GuildView {
        GuildView {
            id: self.id as int,
            guild_id: self.guild_id@,
            guild_name: opt_str_view(self.guild_name),
            owner_id: opt_str_view(self.owner_id),
            joined_at: self.joined_at as int,
            is_active: self.is_active,
            settings: self.settings@,
            created_at: self.created_at as int,
            updated_at: self.updated_at as int,
        }
    }
}

fn clone_opt_string(o: &Option<String>) -> (r: Option<String>)
    ensures
        opt_str_view(r) == opt_str_view(*o),
{
    match o {
        Some(s) => Some(s.clone()),
        None => None,
    }
}

impl Clone for Model {
    /// A cloned row has the same view as the original.
    fn clone(&self) -> (r: Self)
        ensures
            r@ == self@,
    {
        Model {
            id: self.id,
            guild_id: self.guild_id.clone(),
            guild_name: clone_opt_string(&self.guild_name),
            owner_id: clone_opt_string(&self.owner_id),
            joined_at: self.joined_at,
            is_active: self.is_active,
            settings: self.settings.clone(),
            created_at: self.created_at,
            updated_at: self.updated_at,
        }
    }
}

} // verus!
