//! Creating a match from the web form: the two player selects, what each
//! offers, and how a posted form becomes a match.
use vstd::prelude::*;
use vstd::string::*;

use crate::games::Game;
use crate::matches::PlayerId;
use crate::store::{agent_is, initial_row, MatchStore};
use crate::text::{split_once, split_once_spec, str_eq};
use crate::types::UserRecord;

verus! {

/// What a player select offers: oneself, other users, or agents.
#[derive(Debug)]
pub enum CreateMatchOptions {
    Me(String),
    User(Vec<String>),
    Agent(Vec<String>),
}

/// The label of agent `i` of the store: its owner's username, a slash and
/// its name; `None` when the owner is unknown.
pub open spec fn agent_label(store: MatchStore, i: int) -> Option<Seq<char>> {
    let a = store.agents@[i];
    if 1 <= a.user_id <= store.users@.len() {
        Some(store.users@[a.user_id - 1].username@ + seq!['/'] + a.name@)
    } else {
        None
    }
}

/// Labels of the first `n` agents whose owner is known, in id order.
pub open spec fn agent_labels(store: MatchStore, n: int) -> Seq<Seq<char>>
    decreases n,
{
    if n <= 0 {
        Seq::empty()
    } else {
        match agent_label(store, n - 1) {
            Some(l) => agent_labels(store, n - 1).push(l),
            None => agent_labels(store, n - 1),
        }
    }
}

impl CreateMatchOptions {
    /// Only the signed-in user.
    pub fn me(auth_user: &UserRecord) -> (r: Self)
        ensures
            r matches CreateMatchOptions::Me(name) && name@ == auth_user.username@,
    {
        CreateMatchOptions::Me(auth_user.username.clone())
    }

    /// Every known username, in id order.
    pub fn users(_auth_user: &UserRecord, store: &MatchStore) -> (r: Self)
        requires
            store.wf(),
        ensures
            r matches CreateMatchOptions::User(v) && v@.len() == store.users@.len()
                && forall|i: int| 0 <= i < v@.len() ==> (#[trigger] v@[i])@ == store.users@[i].username@,
    {
        let mut v: Vec<String> = Vec::new();
        let mut i: usize = 0;
        while i < store.users.len()
            invariant
                0 <= i <= store.users@.len(),
                v@.len() == i,
                forall|k: int| 0 <= k < i ==> (#[trigger] v@[k])@ == store.users@[k].username@,
            decreases store.users@.len() - i,
        {
            v.push(store.users[i].username.clone());
            i = i + 1;
        }
        CreateMatchOptions::User(v)
    }

    /// Every agent, as `owner/name`, in id order.
    pub fn agents(_auth_user: &UserRecord, store: &MatchStore) -> (r: Self)
        requires
            store.wf(),
        ensures
            r matches CreateMatchOptions::Agent(v) && v@.len() == agent_labels(*store, store.agents@.len() as int).len()
                && forall|i: int| 0 <= i < v@.len() ==> (#[trigger] v@[i])@ == agent_labels(*store, store.agents@.len() as int)[i],
    {
        let mut v: Vec<String> = Vec::new();
        let mut i: usize = 0;
        proof {
            reveal_strlit("/");
            assert("/"@ =~= seq!['/']);
        }
        while i < store.agents.len()
            invariant
                store.wf(),
                0 <= i <= store.agents@.len(),
                v@.len() == agent_labels(*store, i as int).len(),
                forall|k: int| 0 <= k < v@.len() ==> (#[trigger] v@[k])@ == agent_labels(*store, i as int)[k],
            decreases store.agents@.len() - i,
        {
            let a = &store.agents[i];
            if 1 <= a.user_id && a.user_id <= store.users.len() as i64 {
                let owner = &store.users[(a.user_id - 1) as usize];
                proof {
                    reveal_strlit("/");
                    assert("/"@ =~= seq!['/']);
                }
                let label = owner.username.clone().concat("/").concat(a.name.as_str());
                assert(label@ == agent_label(*store, i as int).unwrap());
                v.push(label);
            }
            assert(agent_labels(*store, i + 1) == match agent_label(*store, i as int) {
                Some(l) => agent_labels(*store, i as int).push(l),
                None => agent_labels(*store, i as int),
            });
            i = i + 1;
        }
        CreateMatchOptions::Agent(v)
    }
}

/// One player select of the form: slot `i` (1 for blue, 2 for red), what it
/// offers and what is selected.
#[derive(Debug)]
pub struct CreateMatchFormSelects {
    pub i: usize,
    pub options: CreateMatchOptions,
    pub selected: Option<String>,
}

impl CreateMatchFormSelects {
    /// Select `i` offering only the signed-in user, nothing selected.
    pub fn default(auth_user: &UserRecord, i: usize) -> (r: Self)
        ensures
            r.i == i,
            r.options matches CreateMatchOptions::Me(name) && name@ == auth_user.username@,
            r.selected is None,
    {
        CreateMatchFormSelects { i, options: CreateMatchOptions::me(auth_user), selected: None }
    }
}

/// The kinds of player a select can hold.
#[derive(Clone, Copy, Debug, PartialEq, Eq, Structural)]
pub enum PlayerKind {
    Me,
    User,
    Agent,
}

pub open spec fn kind_named(t: Seq<char>) -> Option<PlayerKind> {
    if t == seq!['m', 'e'] {
        Some(PlayerKind::Me)
    } else if t == seq!['u', 's', 'e', 'r'] {
        Some(PlayerKind::User)
    } else if t == seq!['a', 'g', 'e', 'n', 't'] {
        Some(PlayerKind::Agent)
    } else {
        None
    }
}

/// The player kind that `t` names (`me`, `user` or `agent`).
pub fn player_kind(t: &str) -> (r: Option<PlayerKind>)
    ensures
        r == kind_named(t@),
{
    proof {
        reveal_strlit("me");
        reveal_strlit("user");
        reveal_strlit("agent");
        assert("me"@ =~= seq!['m', 'e']);
        assert("user"@ =~= seq!['u', 's', 'e', 'r']);
        assert("agent"@ =~= seq!['a', 'g', 'e', 'n', 't']);
    }
    if str_eq(t, "me") {
        Some(PlayerKind::Me)
    } else if str_eq(t, "user") {
        Some(PlayerKind::User)
    } else if str_eq(t, "agent") {
        Some(PlayerKind::Agent)
    } else {
        None
    }
}

/// The query sent when one select changes kind: exactly one of the two is set.
#[derive(Debug)]
pub struct CreateMatchSelectsQuery {
    pub player_type_1: Option<String>,
    pub player_type_2: Option<String>,
}

impl CreateMatchSelectsQuery {
    /// The select that the query asks for, with the options of the kind it
    /// names and nothing selected; an error when not exactly one select is
    /// named or its kind is unknown.
    pub fn fetch(&self, auth_user: &UserRecord, store: &MatchStore) -> (r: Result<CreateMatchFormSelects, String>)
        requires
            store.wf(),
        ensures
            match (self.player_type_1, self.player_type_2) {
                (Some(t), None) => match kind_named(t@) {
                    Some(k) => r matches Ok(s) && s.i == 1 && s.selected is None && options_kind(s.options) == k,
                    None => r is Err,
                },
                (None, Some(t)) => match kind_named(t@) {
                    Some(k) => r matches Ok(s) && s.i == 2 && s.selected is None && options_kind(s.options) == k,
                    None => r is Err,
                },
                _ => r is Err,
            },
    {
        proof {
            reveal_strlit("Invalid query params");
        }
        let (player_type, n): (&String, usize) = match (&self.player_type_1, &self.player_type_2) {
            (Some(t), None) => (t, 1),
            (None, Some(t)) => (t, 2),
            _ => {
                return Err(String::from_str("Invalid query params"));
            },
        };
        let options = match player_kind(player_type.as_str()) {
            Some(PlayerKind::Me) => CreateMatchOptions::me(auth_user),
            Some(PlayerKind::User) => CreateMatchOptions::users(auth_user, store),
            Some(PlayerKind::Agent) => CreateMatchOptions::agents(auth_user, store),
            None => {
                return Err(String::from_str("Invalid query params"));
            },
        };
        Ok(CreateMatchFormSelects { i: n, options, selected: None })
    }
}

/// The kind of player that a set of options offers.
pub open spec fn options_kind(o: CreateMatchOptions) -> PlayerKind {
    match o {
        CreateMatchOptions::Me(_) => PlayerKind::Me,
        CreateMatchOptions::User(_) => PlayerKind::User,
        CreateMatchOptions::Agent(_) => PlayerKind::Agent,
    }
}

/// The match form as shown: both selects and what is wrong with each.
#[derive(Debug)]
pub struct CreateMatchForm {
    pub blue: CreateMatchFormSelects,
    pub red: CreateMatchFormSelects,
    pub blue_error: Option<String>,
    pub red_error: Option<String>,
}

impl CreateMatchForm {
    /// Both selects offering only the signed-in user, no errors.
    pub fn default(auth_user: &UserRecord) -> (r: Self)
        ensures
            r.blue.i == 1,
            r.red.i == 2,
            r.blue.options matches CreateMatchOptions::Me(name) && name@ == auth_user.username@,
            r.red.options matches CreateMatchOptions::Me(name) && name@ == auth_user.username@,
            r.blue.selected is None,
            r.red.selected is None,
            r.blue_error is None,
            r.red_error is None,
    {
        CreateMatchForm {
            blue: CreateMatchFormSelects::default(auth_user, 1),
            red: CreateMatchFormSelects::default(auth_user, 2),
            blue_error: None,
            red_error: None,
        }
    }
}

/// The match form as posted: a kind and a name for each slot.
#[derive(Debug)]
pub struct CreateMatchFormData {
    pub player_type_1: String,
    pub player_name_1: String,
    pub player_type_2: String,
    pub player_name_2: String,
}

/// A select of kind `kind` holding `name` is wrong on its own: "me" must
/// name the signed-in user, "user" must name someone else.
pub open spec fn select_wrong(kind: Option<PlayerKind>, name: Seq<char>, me: Seq<char>) -> bool {
    match kind {
        Some(PlayerKind::Me) => name != me,
        Some(PlayerKind::User) => name == me,
        _ => false,
    }
}

/// The signed-in user must play unless both slots are agents: a pair with
/// another user in it is wrong on that user's side (both sides for two users).
pub open spec fn pair_wrong(k1: Option<PlayerKind>, k2: Option<PlayerKind>) -> (bool, bool) {
    match (k1, k2) {
        (Some(PlayerKind::User), Some(PlayerKind::User)) => (true, true),
        (Some(PlayerKind::User), Some(PlayerKind::Agent)) => (true, false),
        (Some(PlayerKind::Agent), Some(PlayerKind::User)) => (false, true),
        _ => (false, false),
    }
}

/// `p` is the player that a select of kind `kind` naming `name` stands for:
/// the signed-in user, the user of that name, or the Connect-4 agent that
/// `owner/agent` names.
pub open spec fn resolves_to(store: MatchStore, me: i64, kind: Option<PlayerKind>, name: Seq<char>, p: PlayerId) -> bool {
    match kind {
        Some(PlayerKind::Me) => p == PlayerId::User(me),
        Some(PlayerKind::User) => p matches PlayerId::User(id) && 1 <= id <= store.users@.len()
            && store.users@[id - 1].username@ == name,
        Some(PlayerKind::Agent) => split_once_spec(name, '/') matches Some(parts) && p matches PlayerId::Agent(id)
            && 1 <= id <= store.agents@.len()
            && exists|u: int| 0 <= u < store.users@.len() && store.users@[u].username@ == parts.0
                && agent_is(store.agents@[id - 1], (u + 1) as i64, Game::Connect4, parts.1),
        None => false,
    }
}

/// Outcome of posting the match form.
#[derive(Debug)]
pub enum CreateMatchOutcome {
    Created(i64),
    /// The form comes back with its errors; nothing was stored.
    Refused(CreateMatchForm),
}

/// The select shown again for slot `i` after a post.
fn select_for(auth_user: &UserRecord, store: &MatchStore, kind: Option<PlayerKind>, name: &String, i: usize) -> (r: CreateMatchFormSelects)
    requires
        store.wf(),
    ensures
        r.i == i,
{
    match kind {
        Some(PlayerKind::Me) => CreateMatchFormSelects {
            i,
            options: CreateMatchOptions::me(auth_user),
            selected: Some(auth_user.username.clone()),
        },
        Some(PlayerKind::User) => CreateMatchFormSelects {
            i,
            options: CreateMatchOptions::users(auth_user, store),
            selected: Some(name.clone()),
        },
        Some(PlayerKind::Agent) => CreateMatchFormSelects {
            i,
            options: CreateMatchOptions::agents(auth_user, store),
            selected: Some(name.clone()),
        },
        None => CreateMatchFormSelects::default(auth_user, i),
    }
}

/// The player that a select stands for, or the message saying why none.
fn lookup_player(store: &MatchStore, auth_user: &UserRecord, kind: Option<PlayerKind>, name: &String) -> (r: Result<PlayerId, String>)
    requires
        store.wf(),
    ensures
        r matches Ok(p) ==> resolves_to(*store, auth_user.id, kind, name@, p),
        r is Err ==> forall|p: PlayerId| !resolves_to(*store, auth_user.id, kind, name@, p),
{
    proof {
        reveal_strlit("User ");
        reveal_strlit("Agent ");
        reveal_strlit(" not found.");
        reveal_strlit("Unknown player type.");
    }
    match kind {
        Some(PlayerKind::Me) => Ok(PlayerId::User(auth_user.id)),
        Some(PlayerKind::User) => match store.find_user(name) {
            Some(id) => Ok(PlayerId::User(id)),
            None => Err(String::from_str("User ").concat(name.as_str()).concat(" not found.")),
        },
        Some(PlayerKind::Agent) => {
            let not_found = String::from_str("Agent ").concat(name.as_str()).concat(" not found.");
            match split_once(name.as_str(), '/') {
                None => Err(not_found),
                Some((owner, agent)) => match store.find_user(&owner) {
                    None => {
                        proof {
                            assert forall|p: PlayerId| !resolves_to(*store, auth_user.id, kind, name@, p) by {
                                if resolves_to(*store, auth_user.id, kind, name@, p) {
                                    let u = choose|u: int| 0 <= u < store.users@.len() && store.users@[u].username@ == owner@
                                        && agent_is(store.agents@[p->Agent_0 - 1], (u + 1) as i64, Game::Connect4, agent@);
                                    assert(store.users@[u].username@ != owner@);
                                }
                            }
                        }
                        Err(not_found)
                    },
                    Some(uid) => match store.find_agent(uid, Game::Connect4, &agent) {
                        Some(aid) => {
                            assert(store.users@[uid - 1].username@ == owner@);
                            Ok(PlayerId::Agent(aid))
                        },
                        None => {
                            proof {
                                assert forall|p: PlayerId| !resolves_to(*store, auth_user.id, kind, name@, p) by {
                                    if resolves_to(*store, auth_user.id, kind, name@, p) {
                                        let u = choose|u: int| 0 <= u < store.users@.len() && store.users@[u].username@ == owner@
                                            && agent_is(store.agents@[p->Agent_0 - 1], (u + 1) as i64, Game::Connect4, agent@);
                                        assert(store.users@[uid - 1].username@ == owner@);
                                        assert(u == uid - 1);
                                        assert(!agent_is(store.agents@[p->Agent_0 - 1], uid, Game::Connect4, agent@));
                                    }
                                }
                            }
                            Err(not_found)
                        },
                    },
                },
            }
        },
        None => Err(String::from_str("Unknown player type.")),
    }
}

/// Whether the posted form is wrong before any player is looked up.
pub open spec fn form_wrong(form: CreateMatchFormData, me: Seq<char>) -> bool {
    let k1 = kind_named(form.player_type_1@);
    let k2 = kind_named(form.player_type_2@);
    select_wrong(k1, form.player_name_1@, me) || select_wrong(k2, form.player_name_2@, me)
        || pair_wrong(k1, k2).0 || pair_wrong(k1, k2).1
}

/// Handles a posted match form for `auth_user`: checks each select and the
/// pair, looks up both players and, when all is well, creates the match
/// with blue in slot 0 and red in slot 1. Otherwise nothing is stored and
/// the form comes back with its errors.
pub fn create_match_from_form(
    store: &mut MatchStore,
    auth_user: &UserRecord,
    form: &CreateMatchFormData,
    created_at: u64,
) -> (r: CreateMatchOutcome)
    requires
        old(store).wf(),
        old(store).matches@.len() < i64::MAX,
    ensures
        final(store).wf(),
        final(store).users@ == old(store).users@,
        final(store).agents@ == old(store).agents@,
        (r is Created) <==> (!form_wrong(*form, auth_user.username@)
            && (exists|p: PlayerId| resolves_to(*old(store), auth_user.id, kind_named(form.player_type_1@), form.player_name_1@, p))
            && (exists|p: PlayerId| resolves_to(*old(store), auth_user.id, kind_named(form.player_type_2@), form.player_name_2@, p))),
        r is Refused ==> final(store).matches@ == old(store).matches@,
        r matches CreateMatchOutcome::Refused(f) ==> f.blue_error is Some || f.red_error is Some,
        r matches CreateMatchOutcome::Created(id) ==> {
            &&& id == old(store).matches@.len() + 1
            &&& final(store).matches@.len() == old(store).matches@.len() + 1
            &&& forall|i: int| 0 <= i < old(store).matches@.len() ==> final(store).matches@[i] == old(store).matches@[i]
            &&& final(store).match_spec(id) matches Some(m) && {
                &&& m.created_by == auth_user.id
                &&& m.game == Game::Connect4
                &&& m.created_at == created_at
                &&& m.turns@.len() == 1
                &&& initial_row(m.turns@[0])
                &&& resolves_to(*old(store), auth_user.id, kind_named(form.player_type_1@), form.player_name_1@, m.players@[0])
                &&& resolves_to(*old(store), auth_user.id, kind_named(form.player_type_2@), form.player_name_2@, m.players@[1])
            }
        },
{
    proof {
        reveal_strlit("Me must be you.");
        reveal_strlit("Select 'me' for yourself.");
        reveal_strlit("You must be one of the players unless the game is all AI agents.");
    }
    let k1 = player_kind(form.player_type_1.as_str());
    let k2 = player_kind(form.player_type_2.as_str());
    let mut blue_error: Option<String> = None;
    let mut red_error: Option<String> = None;
    match k1 {
        Some(PlayerKind::Me) => {
            if !(form.player_name_1 == auth_user.username) {
                blue_error = Some(String::from_str("Me must be you."));
            }
        },
        Some(PlayerKind::User) => {
            if form.player_name_1 == auth_user.username {
                blue_error = Some(String::from_str("Select 'me' for yourself."));
            }
        },
        _ => {},
    }
    match k2 {
        Some(PlayerKind::Me) => {
            if !(form.player_name_2 == auth_user.username) {
                red_error = Some(String::from_str("Me must be you."));
            }
        },
        Some(PlayerKind::User) => {
            if form.player_name_2 == auth_user.username {
                red_error = Some(String::from_str("Select 'me' for yourself."));
            }
        },
        _ => {},
    }
    let blue_other = k1 == Some(PlayerKind::User) && (k2 == Some(PlayerKind::User) || k2 == Some(PlayerKind::Agent));
    let red_other = k2 == Some(PlayerKind::User) && (k1 == Some(PlayerKind::User) || k1 == Some(PlayerKind::Agent));
    if blue_other {
        blue_error = Some(String::from_str("You must be one of the players unless the game is all AI agents."));
    }
    if red_other {
        red_error = Some(String::from_str("You must be one of the players unless the game is all AI agents."));
    }
    let blue = select_for(auth_user, store, k1, &form.player_name_1, 1);
    let red = select_for(auth_user, store, k2, &form.player_name_2, 2);
    if blue_error.is_some() || red_error.is_some() {
        return CreateMatchOutcome::Refused(CreateMatchForm { blue, red, blue_error, red_error });
    }
    let p1 = lookup_player(store, auth_user, k1, &form.player_name_1);
    let p2 = lookup_player(store, auth_user, k2, &form.player_name_2);
    match (p1, p2) {
        (Ok(a), Ok(b)) => {
            let id = store.create_match(auth_user.id, Game::Connect4, created_at, a, b);
            CreateMatchOutcome::Created(id)
        },
        (p1, p2) => {
            let blue_error = match p1 {
                Err(e) => Some(e),
                Ok(_) => None,
            };
            let red_error = match p2 {
                Err(e) => Some(e),
                Ok(_) => None,
            };
            CreateMatchOutcome::Refused(CreateMatchForm { blue, red, blue_error, red_error })
        },
    }
}

} // verus!
