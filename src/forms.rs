//! The web forms around matches and agents: what they show and how a posted
//! form turns into a new match or agent.
use vstd::prelude::*;
use vstd::string::*;

pub mod create_agent;
pub mod create_match;

pub use self::create_match::{CreateMatchFormData, CreateMatchOptions};
use self::create_match::{kind_named, options_kind, player_kind, PlayerKind};
use crate::store::MatchStore;
use crate::types::UserRecord;

verus! {

/// A player select: its options and the selected name.
#[derive(Debug)]
pub struct SelectsTemplate {
    pub options: CreateMatchOptions,
    pub selected: Option<String>,
}

/// The match form: a select for each side.
#[derive(Debug)]
pub struct CreateMatchFormTemplate {
    pub blue: SelectsTemplate,
    pub red: SelectsTemplate,
}

/// The select of side `n` (1 for blue, 2 for red) for a player kind: the
/// signed-in user alone for `me`, else the users or agents to pick from;
/// `player_name` is selected, or the signed-in user for `me`.
pub fn create_match_selects(
    auth_user: &UserRecord,
    store: &MatchStore,
    player_type: &str,
    player_name: Option<&str>,
    n: i32,
) -> (r: SelectsTemplate)
    requires
        n == 1 || n == 2,
        kind_named(player_type@) is Some,
        store.wf(),
    ensures
        options_kind(r.options) == kind_named(player_type@).unwrap(),
        kind_named(player_type@) == Some(PlayerKind::Me) ==> (r.selected matches Some(s) && s@ == auth_user.username@),
        kind_named(player_type@) != Some(PlayerKind::Me) ==> match player_name {
            Some(p) => r.selected matches Some(s) && s@ == p@,
            None => r.selected is None,
        },
{
    let selected_name = match player_name {
        Some(p) => Some(String::from_str(p)),
        None => None,
    };
    match player_kind(player_type) {
        Some(PlayerKind::Me) => SelectsTemplate {
            options: CreateMatchOptions::me(auth_user),
            selected: Some(auth_user.username.clone()),
        },
        Some(PlayerKind::User) => SelectsTemplate {
            options: CreateMatchOptions::users(auth_user, store),
            selected: selected_name,
        },
        _ => SelectsTemplate {
            options: CreateMatchOptions::agents(auth_user, store),
            selected: selected_name,
        },
    }
}

} // verus!
