use gameplay::config::load;
use gameplay::forms::create_agent::{
    check_uri_parts, create_agent, is_valid_agent_name, validate_agent_url, CreateAgentForm, CreateAgentFormData,
    CreateAgentOutcome, UrlError,
};
use gameplay::forms::create_match::{
    create_match_from_form, CreateMatchForm, CreateMatchFormData, CreateMatchFormSelects, CreateMatchOptions,
    CreateMatchOutcome, CreateMatchSelectsQuery,
};
use gameplay::forms::create_match_selects;
use gameplay::games::Game;
use gameplay::matches::{get_by_id, PlayerId};
use gameplay::notifier::Notifier;
use gameplay::store::{EndpointStatus, MatchStore};
use gameplay::templates::htmx_target;
use gameplay::types::UserRecord;
use gameplay::driver::{agent_headers, decimal_string, DriverRegistry};

fn user(id: i64, name: &str) -> UserRecord {
    UserRecord {
        id,
        clerk_id: format!("clerk-{}", id),
        username: name.to_string(),
        first_name: String::new(),
        last_name: String::new(),
        email: String::new(),
    }
}

fn store_with_users() -> (MatchStore, UserRecord, UserRecord) {
    let mut store = MatchStore::new();
    let a = store.add_user("steve".to_string()).unwrap();
    let b = store.add_user("gabe".to_string()).unwrap();
    assert_eq!(store.add_user("steve".to_string()), Some(a));
    (store, user(a, "steve"), user(b, "gabe"))
}

fn form(t1: &str, n1: &str, t2: &str, n2: &str) -> CreateMatchFormData {
    CreateMatchFormData {
        player_type_1: t1.to_string(),
        player_name_1: n1.to_string(),
        player_type_2: t2.to_string(),
        player_name_2: n2.to_string(),
    }
}

#[test]
fn agent_names() {
    assert!(is_valid_agent_name("my-agent_2"));
    assert!(!is_valid_agent_name("my agent"));
    assert!(!is_valid_agent_name("agent/1"));
    assert!(is_valid_agent_name(""));
}

#[test]
fn agent_urls() {
    assert_eq!(validate_agent_url("http://localhost:8000/"), Ok("http://localhost:8000/".to_string()));
    assert_eq!(validate_agent_url("https://example.com"), Ok("https://example.com/".to_string()));
    assert_eq!(validate_agent_url("ftp://example.com/"), Err(UrlError::Scheme));
    assert_eq!(validate_agent_url("/just/a/path"), Err(UrlError::NoHost));
    assert_eq!(validate_agent_url("http://exa mple.com"), Err(UrlError::Invalid));
    assert_eq!(check_uri_parts(&Some("https".to_string()), &Some("h".to_string())), None);
    assert_eq!(check_uri_parts(&Some("ws".to_string()), &Some("h".to_string())), Some(UrlError::Scheme));
    assert_eq!(check_uri_parts(&Some("http".to_string()), &None), Some(UrlError::NoHost));
}

#[test]
fn agent_form_creates_then_refuses_duplicate() {
    let (mut store, steve, _) = store_with_users();
    let data = || CreateAgentFormData {
        game: "connect4".to_string(),
        agentname: "mcts".to_string(),
        url: "https://agent.example.com".to_string(),
    };
    let id = match create_agent(&mut store, &steve, data()) {
        CreateAgentOutcome::Created(id) => id,
        CreateAgentOutcome::Refused(f) => panic!("refused: {:?}", f),
    };
    let a = store.load_agent(id).unwrap();
    assert_eq!(a.url, "https://agent.example.com/");
    assert!(matches!(a.status, EndpointStatus::Pending));
    match create_agent(&mut store, &steve, data()) {
        CreateAgentOutcome::Refused(f) => {
            assert_eq!(f.agentname_error.as_deref(), Some("You already have an agent with that name"));
            assert_eq!(f.url_error, None);
        }
        CreateAgentOutcome::Created(_) => panic!("duplicate accepted"),
    }
    let bad = CreateAgentFormData { game: "connect4".to_string(), agentname: "a b".to_string(), url: "nope".to_string() };
    match create_agent(&mut store, &steve, bad) {
        CreateAgentOutcome::Refused(f) => {
            assert!(f.agentname_error.is_some());
            assert!(f.url_error.is_some());
        }
        CreateAgentOutcome::Created(_) => panic!("bad form accepted"),
    }
    assert_eq!(store.find_agent_endpoint(steve.id, &"mcts".to_string(), Game::Connect4).unwrap(), "https://agent.example.com/");
    assert!(store.update_agent_validation(id, EndpointStatus::Valid));
    let f = CreateAgentForm::default();
    assert_eq!(f.game, "connect4");
    assert!(f.agentname.is_empty());
}

#[test]
fn match_form_me_against_agent() {
    let (mut store, steve, gabe) = store_with_users();
    let aid = store.create_agent(gabe.id, Game::Connect4, "smart".to_string(), "http://h/".to_string()).unwrap();
    match create_match_from_form(&mut store, &steve, &form("me", "steve", "agent", "gabe/smart"), 7) {
        CreateMatchOutcome::Created(id) => {
            let m = get_by_id(&store, id).unwrap();
            assert_eq!(m.players, vec![PlayerId::User(steve.id), PlayerId::Agent(aid)]);
            assert_eq!(m.created_by, steve.id);
        }
        CreateMatchOutcome::Refused(f) => panic!("refused: {:?}", f),
    }
}

#[test]
fn match_form_errors() {
    let (mut store, steve, _) = store_with_users();
    match create_match_from_form(&mut store, &steve, &form("me", "gabe", "user", "gabe"), 0) {
        CreateMatchOutcome::Refused(f) => {
            assert_eq!(f.blue_error.as_deref(), Some("Me must be you."));
            assert_eq!(f.red_error, None);
        }
        CreateMatchOutcome::Created(_) => panic!("accepted"),
    }
    match create_match_from_form(&mut store, &steve, &form("user", "gabe", "user", "steve"), 0) {
        CreateMatchOutcome::Refused(f) => {
            assert!(f.blue_error.is_some());
            assert!(f.red_error.is_some());
        }
        CreateMatchOutcome::Created(_) => panic!("accepted"),
    }
    match create_match_from_form(&mut store, &steve, &form("me", "steve", "user", "nobody"), 0) {
        CreateMatchOutcome::Refused(f) => assert_eq!(f.red_error.as_deref(), Some("User nobody not found.")),
        CreateMatchOutcome::Created(_) => panic!("accepted"),
    }
    match create_match_from_form(&mut store, &steve, &form("me", "steve", "agent", "gabe/none"), 0) {
        CreateMatchOutcome::Refused(f) => assert_eq!(f.red_error.as_deref(), Some("Agent gabe/none not found.")),
        CreateMatchOutcome::Created(_) => panic!("accepted"),
    }
    assert!(store.matches.is_empty());
}

#[test]
fn selects_and_queries() {
    let (mut store, steve, gabe) = store_with_users();
    store.create_agent(gabe.id, Game::Connect4, "smart".to_string(), "http://h/".to_string()).unwrap();
    let q = CreateMatchSelectsQuery { player_type_1: Some("agent".to_string()), player_type_2: None };
    let s = q.fetch(&steve, &store).unwrap();
    assert_eq!(s.i, 1);
    match s.options {
        CreateMatchOptions::Agent(v) => assert_eq!(v, vec!["gabe/smart".to_string()]),
        other => panic!("unexpected {:?}", other),
    }
    let both = CreateMatchSelectsQuery { player_type_1: Some("me".to_string()), player_type_2: Some("me".to_string()) };
    assert_eq!(both.fetch(&steve, &store).err(), Some("Invalid query params".to_string()));
    let users = CreateMatchOptions::users(&steve, &store);
    assert!(matches!(users, CreateMatchOptions::User(ref v) if v == &vec!["steve".to_string(), "gabe".to_string()]));
    let d = CreateMatchFormSelects::default(&steve, 2);
    assert_eq!(d.i, 2);
    assert!(matches!(d.options, CreateMatchOptions::Me(ref n) if n == "steve"));
    let f = CreateMatchForm::default(&steve);
    assert_eq!((f.blue.i, f.red.i), (1, 2));
    let sel = create_match_selects(&steve, &store, "user", Some("gabe"), 2);
    assert_eq!(sel.selected.as_deref(), Some("gabe"));
    let me = create_match_selects(&steve, &store, "me", None, 1);
    assert_eq!(me.selected.as_deref(), Some("steve"));
}

#[test]
fn configuration_from_pairs() {
    let names = [
        "SENTRY_DSN", "SENTRY_ENV", "CLERK_PUB_API_KEY", "CLERK_PUB_ENCRYPTION_KEY", "DB", "QSTASH_URL",
        "QSTASH_TOKEN", "QSTASH_CURRENT_SIGNING_KEY", "QSTASH_NEXT_SIGNING_KEY", "ROOT_URL",
    ];
    let mut vars: Vec<(String, String)> = names.iter().map(|n| (n.to_string(), format!("v-{}", n))).collect();
    vars.push(("DB".to_string(), "second".to_string()));
    let c = load(&vars).unwrap();
    assert_eq!(c.db, "v-DB");
    assert_eq!(c.root_url, "v-ROOT_URL");
    vars.retain(|(n, _)| n != "QSTASH_TOKEN");
    assert_eq!(load(&vars).err(), Some("QSTASH_TOKEN".to_string()));
}

#[test]
fn notifier_fans_out_per_match() {
    let mut n = Notifier::new();
    let a = n.watch(1).unwrap();
    let b = n.watch(2).unwrap();
    let c = n.watch(1).unwrap();
    assert_eq!(n.publish(1), vec![a, c]);
    assert_eq!(n.publish(2), vec![b]);
    assert!(n.unwatch(a));
    assert!(!n.unwatch(a));
    assert_eq!(n.publish(1), vec![c]);
    assert!(n.publish(3).is_empty());
}

#[test]
fn driver_registry_coalesces() {
    let mut r = DriverRegistry::new();
    assert!(r.try_begin(4));
    assert!(!r.try_begin(4));
    assert!(r.try_begin(5));
    r.finish(4);
    assert!(r.try_begin(4));
}

#[test]
fn agent_call_headers() {
    let h = agent_headers(Game::Connect4, 120, 1, false);
    let pairs: Vec<(&str, &str)> = h.iter().map(|(a, b)| (a.as_str(), b.as_str())).collect();
    assert_eq!(
        pairs,
        vec![
            ("Gameplay-Game", "connect4"),
            ("Gameplay-Match-ID", "120"),
            ("Gameplay-Player", "1"),
            ("Gameplay-Match-Status", "InProgress"),
        ]
    );
    assert_eq!(agent_headers(Game::Connect4, 7, 0, true)[3].1, "Over");
    assert_eq!(decimal_string(0), "0");
    assert_eq!(decimal_string(9876543210), "9876543210");
    assert_eq!(htmx_target(None), "");
    assert_eq!(htmx_target(Some("#main".to_string())), "#main");
}
