//! Registering an agent: the form, and the checks on its name and URL.
use vstd::prelude::*;
use vstd::string::*;

use crate::games::Game;
use crate::text::str_eq;
use crate::store::{agent_is, CreateAgentError, EndpointStatus, MatchStore};
use crate::types::UserRecord;

verus! {

/// The agent form as shown: what was entered and what is wrong with it.
#[derive(Debug)]
pub struct CreateAgentForm {
    pub game: String,
    pub agentname: String,
    pub url: String,
    pub agentname_error: Option<String>,
    pub url_error: Option<String>,
}

/// The agent form as posted.
#[derive(Debug)]
pub struct CreateAgentFormData {
    pub game: String,
    pub agentname: String,
    pub url: String,
}

impl CreateAgentForm {
    /// An empty Connect-4 agent form.
    pub fn default() -> (r: CreateAgentForm)
        ensures
            r.game@ == crate::games::connect4_tag(),
            r.agentname@.len() == 0,
            r.url@.len() == 0,
            r.agentname_error is None,
            r.url_error is None,
    {
        let game = Game::Connect4;
        CreateAgentForm {
            game: String::from_str(game.tag()),
            agentname: String::new(),
            url: String::new(),
            agentname_error: None,
            url_error: None,
        }
    }
}

/// What http's URI parser makes of a text: `None` when it rejects it, else
/// its scheme, its host, and the URI written back out.
pub uninterp spec fn parsed_uri(s: Seq<char>) -> Option<(Option<Seq<char>>, Option<Seq<char>>, Seq<char>)>;

pub open spec fn opt_view(o: Option<String>) -> Option<Seq<char>> {
    match o {
        Some(s) => Some(s@),
        None => None,
    }
}

/// Relies on http::Uri's `FromStr`, `scheme_str`, `host` and `Display`:
/// parses `s` and reports scheme, host and the normalized text.
#[verifier::external_body]
fn parse_uri(s: &str) -> (r: Option<(Option<String>, Option<String>, String)>)
    ensures
        r is None <==> parsed_uri(s@) is None,
        r matches Some(p) ==> parsed_uri(s@) == Some((opt_view(p.0), opt_view(p.1), p.2@)),
{
    match s.parse::<http::Uri>() {
        Err(_) => None,
        Ok(u) => {
            let scheme = match u.scheme_str() { Some(x) => Some(x.to_string()), None => None };
            let host = match u.host() { Some(x) => Some(x.to_string()), None => None };
            Some((scheme, host, u.to_string()))
        },
    }
}

/// What is wrong with an agent's URL.
#[derive(Clone, Copy, Debug, PartialEq, Eq, Structural)]
pub enum UrlError {
    /// The text is not a URI.
    Invalid,
    /// The scheme is neither http nor https.
    Scheme,
    /// The URI names no host.
    NoHost,
}

pub open spec fn http_scheme() -> Seq<char> {
    seq!['h', 't', 't', 'p']
}

pub open spec fn https_scheme() -> Seq<char> {
    seq!['h', 't', 't', 'p', 's']
}

/// The problem with a parsed URI of scheme `scheme` and host `host`: a
/// missing host first, then a scheme other than http or https.
pub open spec fn uri_problem(scheme: Option<Seq<char>>, host: Option<Seq<char>>) -> Option<UrlError> {
    if host is None {
        Some(UrlError::NoHost)
    } else if scheme != Some(http_scheme()) && scheme != Some(https_scheme()) {
        Some(UrlError::Scheme)
    } else {
        None
    }
}

/// The problem with the text `s` as an agent URL.
pub open spec fn url_problem(s: Seq<char>) -> Option<UrlError> {
    match parsed_uri(s) {
        None => Some(UrlError::Invalid),
        Some(p) => uri_problem(p.0, p.1),
    }
}

/// The problem with a parsed URI, given its scheme and host.
pub fn check_uri_parts(scheme: &Option<String>, host: &Option<String>) -> (r: Option<UrlError>)
    ensures
        r == uri_problem(opt_view(*scheme), opt_view(*host)),
{
    proof {
        reveal_strlit("http");
        reveal_strlit("https");
    }
    if host.is_none() {
        return Some(UrlError::NoHost);
    }
    assert("http"@ =~= http_scheme());
    assert("https"@ =~= https_scheme());
    let ok = match scheme {
        Some(s) => str_eq(s.as_str(), "http") || str_eq(s.as_str(), "https"),
        None => false,
    };
    if ok {
        None
    } else {
        Some(UrlError::Scheme)
    }
}

/// The URL to store for an agent: the parsed URI written back out, when it
/// is an http or https URI with a host.
pub fn validate_agent_url(url: &str) -> (r: Result<String, UrlError>)
    ensures
        match parsed_uri(url@) {
            None => r == Err::<String, UrlError>(UrlError::Invalid),
            Some(p) => match uri_problem(p.0, p.1) {
                Some(e) => r == Err::<String, UrlError>(e),
                None => r matches Ok(s) && s@ == p.2,
            },
        },
{
    match parse_uri(url) {
        None => Err(UrlError::Invalid),
        Some((scheme, host, text)) => match check_uri_parts(&scheme, &host) {
            Some(e) => Err(e),
            None => Ok(text),
        },
    }
}

/// Letters, digits, `-` and `_`.
pub open spec fn name_char(c: char) -> bool {
    ('a' <= c && c <= 'z') || ('A' <= c && c <= 'Z') || ('0' <= c && c <= '9') || c == '-' || c == '_'
}

/// An agent name holds only letters, digits, hyphens and underscores.
pub open spec fn valid_agent_name(s: Seq<char>) -> bool {
    forall|i: int| 0 <= i < s.len() ==> name_char(#[trigger] s[i])
}

/// Whether `name` holds only letters, digits, hyphens and underscores.
pub fn is_valid_agent_name(name: &str) -> (r: bool)
    ensures
        r == valid_agent_name(name@),
{
    let n = name.unicode_len();
    let mut i: usize = 0;
    while i < n
        invariant
            n == name@.len(),
            0 <= i <= n,
            forall|k: int| 0 <= k < i ==> name_char(#[trigger] name@[k]),
        decreases n - i,
    {
        let c = name.get_char(i);
        if !(('a' <= c && c <= 'z') || ('A' <= c && c <= 'Z') || ('0' <= c && c <= '9') || c == '-' || c == '_') {
            return false;
        }
        i = i + 1;
    }
    true
}

/// Why an agent form was refused.
#[derive(Clone, Copy, Debug, PartialEq, Eq, Structural)]
pub enum AgentNameError {
    /// The name holds other characters than letters, digits, `-` and `_`.
    Characters,
    /// The user already has an agent of that name.
    Taken,
}

impl AgentNameError {
    pub fn message(&self) -> (r: String)
        ensures
            match self {
                AgentNameError::Characters => r@ == "Agent name can only contain letters, numbers, hyphens and underscores"@,
                AgentNameError::Taken => r@ == "You already have an agent with that name"@,
            },
    {
        match self {
            AgentNameError::Characters => {
                proof { reveal_strlit("Agent name can only contain letters, numbers, hyphens and underscores"); }
                String::from_str("Agent name can only contain letters, numbers, hyphens and underscores")
            },
            AgentNameError::Taken => {
                proof { reveal_strlit("You already have an agent with that name"); }
                String::from_str("You already have an agent with that name")
            },
        }
    }
}

impl UrlError {
    pub fn message(&self) -> (r: String)
        ensures
            match self {
                UrlError::Invalid => r@ == "URL is not valid"@,
                UrlError::Scheme => r@ == "URL must be http or https"@,
                UrlError::NoHost => r@ == "URL must have a host"@,
            },
    {
        match self {
            UrlError::Invalid => {
                proof { reveal_strlit("URL is not valid"); }
                String::from_str("URL is not valid")
            },
            UrlError::Scheme => {
                proof { reveal_strlit("URL must be http or https"); }
                String::from_str("URL must be http or https")
            },
            UrlError::NoHost => {
                proof { reveal_strlit("URL must have a host"); }
                String::from_str("URL must have a host")
            },
        }
    }
}

/// The problem with the name of a new agent of `owner`: bad characters, or a
/// name that `owner` already uses for a Connect-4 agent.
pub open spec fn name_problem(store: MatchStore, owner: i64, name: Seq<char>) -> Option<AgentNameError> {
    if !valid_agent_name(name) {
        Some(AgentNameError::Characters)
    } else if exists|i: int| 0 <= i < store.agents@.len() && agent_is(store.agents@[i], owner, Game::Connect4, name) {
        Some(AgentNameError::Taken)
    } else {
        None
    }
}

/// Outcome of posting the agent form.
#[derive(Debug)]
pub enum CreateAgentOutcome {
    /// The agent was registered, pending validation.
    Created(i64),
    /// The form comes back with its errors.
    Refused(CreateAgentForm),
}

/// Handles a posted agent form for `user`: checks the name and the URL and,
/// when both are fine, registers the agent with the normalized URL, pending
/// validation. Otherwise nothing is stored and the form comes back with the
/// errors found.
pub fn create_agent(store: &mut MatchStore, user: &UserRecord, form: CreateAgentFormData) -> (r: CreateAgentOutcome)
    requires
        old(store).wf(),
    ensures
        final(store).wf(),
        final(store).matches@ == old(store).matches@,
        r is Created ==> name_problem(*old(store), user.id, form.agentname@) is None,
        r is Created ==> url_problem(form.url@) is None,
        r matches CreateAgentOutcome::Created(id) ==> {
            &&& agent_is(final(store).agents@[id - 1], user.id, Game::Connect4, form.agentname@)
            &&& final(store).agents@[id - 1].url@ == parsed_uri(form.url@).unwrap().2
            &&& final(store).agents@[id - 1].status is Pending
            &&& final(store).agents@.drop_last() == old(store).agents@
        },
        r is Refused ==> final(store).agents@ == old(store).agents@,
        r is Refused ==> (name_problem(*old(store), user.id, form.agentname@) is Some || url_problem(form.url@) is Some
            || old(store).agents@.len() == i64::MAX),
        r matches CreateAgentOutcome::Refused(f) ==> {
            &&& f.agentname@ == form.agentname@
            &&& f.url@ == form.url@
            &&& (f.agentname_error is Some <==> (name_problem(*old(store), user.id, form.agentname@) is Some
                || (url_problem(form.url@) is None && old(store).agents@.len() == i64::MAX)))
            &&& (f.url_error is Some <==> url_problem(form.url@) is Some)
        },
{
    let name_error = if !is_valid_agent_name(form.agentname.as_str()) {
        Some(AgentNameError::Characters)
    } else {
        match store.find_agent(user.id, Game::Connect4, &form.agentname) {
            Some(id) => {
                assert(agent_is(store.agents@[id - 1], user.id, Game::Connect4, form.agentname@));
                Some(AgentNameError::Taken)
            },
            None => None,
        }
    };
    let url = validate_agent_url(form.url.as_str());
    let game = Game::Connect4;
    match (name_error, url) {
        (None, Ok(normalized)) => {
            match store.create_agent(user.id, Game::Connect4, form.agentname.clone(), normalized) {
                Ok(id) => {
                    assert(name_problem(*old(store), user.id, form.agentname@) is None);
                    assert(url_problem(form.url@) is None);
                    assert(agent_is(store.agents@[id - 1], user.id, Game::Connect4, form.agentname@));
                    assert(store.agents@[id - 1].url@ == parsed_uri(form.url@).unwrap().2);
                    assert(store.agents@[id - 1].status is Pending);
                    assert(store.agents@.drop_last() == old(store).agents@);
                    CreateAgentOutcome::Created(id)
                },
                Err(e) => {
                    assert(old(store).agents@.len() == i64::MAX);
                    proof { reveal_strlit("No more agents can be registered"); }
                    CreateAgentOutcome::Refused(CreateAgentForm {
                        game: String::from_str(game.tag()),
                        agentname: form.agentname,
                        url: form.url,
                        agentname_error: Some(String::from_str("No more agents can be registered")),
                        url_error: None,
                    })
                },
            }
        },
        (name_error, url) => {
            assert(name_problem(*old(store), user.id, form.agentname@) is Some || url_problem(form.url@) is Some);
            let agentname_error = match name_error {
                Some(e) => Some(e.message()),
                None => None,
            };
            let url_error = match url {
                Err(e) => Some(e.message()),
                Ok(_) => None,
            };
            CreateAgentOutcome::Refused(CreateAgentForm {
                game: String::from_str(game.tag()),
                agentname: form.agentname,
                url: form.url,
                agentname_error,
                url_error,
            })
        },
    }
}

} // verus!
