//! The data that the pages are rendered from.
use vstd::prelude::*;

use crate::forms::create_agent::CreateAgentForm;
use crate::forms::create_match::CreateMatchForm;
use crate::store::MatchRecord;
use crate::types::UserRecord;

verus! {

/// The page that refreshes the session.
#[derive(Debug)]
pub struct Refresh {
    pub clerk_pub_api_key: String,
}

/// The layout of public pages; `htmx_target` names the element a partial
/// request replaces (empty for a full page).
#[derive(Debug)]
pub struct WebLayout {
    pub clerk_pub_api_key: String,
    pub htmx_target: String,
}

/// The layout of signed-in pages.
#[derive(Debug)]
pub struct AppLayout {
    pub clerk_pub_api_key: String,
    pub auth_user: UserRecord,
    pub htmx_target: String,
}

/// The signed-in home page with both creation forms.
#[derive(Debug)]
pub struct AppIndex {
    pub layout: AppLayout,
    pub create_match: CreateMatchForm,
    pub create_agent: CreateAgentForm,
}

/// A page of the signed-in area, by name.
#[derive(Debug)]
pub struct AppPlayground {
    pub layout: AppLayout,
    pub page: String,
}

/// The page of one Connect-4 match.
#[derive(Debug)]
pub struct Connect4Match {
    pub layout: AppLayout,
    pub connect4_match: MatchRecord,
}

/// The element a partial request targets: the `hx-target` header's value,
/// or empty when the request has none.
pub fn htmx_target(header: Option<String>) -> (r: String)
    ensures
        match header {
            Some(h) => r@ == h@,
            None => r@.len() == 0,
        },
{
    match header {
        Some(h) => h,
        None => String::new(),
    }
}

impl WebLayout {
    pub fn new(clerk_pub_api_key: String, hx_target: Option<String>) -> (r: WebLayout)
        ensures
            r.clerk_pub_api_key == clerk_pub_api_key,
            match hx_target {
                Some(h) => r.htmx_target@ == h@,
                None => r.htmx_target@.len() == 0,
            },
    {
        WebLayout { clerk_pub_api_key, htmx_target: htmx_target(hx_target) }
    }
}

impl AppLayout {
    pub fn new(clerk_pub_api_key: String, auth_user: UserRecord, hx_target: Option<String>) -> (r: AppLayout)
        ensures
            r.clerk_pub_api_key == clerk_pub_api_key,
            r.auth_user == auth_user,
            match hx_target {
                Some(h) => r.htmx_target@ == h@,
                None => r.htmx_target@.len() == 0,
            },
    {
        AppLayout { clerk_pub_api_key, auth_user, htmx_target: htmx_target(hx_target) }
    }
}

} // verus!
