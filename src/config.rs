//! Process configuration: built once at startup from `(name, value)` pairs
//! and passed to the components that need it.
use vstd::prelude::*;
use vstd::string::*;

use crate::text::str_eq;

verus! {

/// The settings the server reads at startup.
#[derive(Clone, Debug)]
pub struct Config {
    pub sentry_dsn: String,
    pub sentry_env: String,
    pub clerk_pub_api_key: String,
    pub clerk_pub_encryption_key: String,
    pub db: String,
    pub qstash_url: String,
    pub qstash_token: String,
    pub qstash_current_signing_key: String,
    pub qstash_next_signing_key: String,
    pub root_url: String,
}

/// The value of the first pair named `key` among the first `n` pairs.
pub open spec fn value_in(vars: Seq<(String, String)>, key: Seq<char>, n: int) -> Option<Seq<char>>
    decreases n,
{
    if n <= 0 {
        None
    } else if value_in(vars, key, n - 1) is Some {
        value_in(vars, key, n - 1)
    } else if vars[n - 1].0@ == key {
        Some(vars[n - 1].1@)
    } else {
        None
    }
}

/// The value of the first pair named `key`.
pub open spec fn value_of(vars: Seq<(String, String)>, key: Seq<char>) -> Option<Seq<char>> {
    value_in(vars, key, vars.len() as int)
}

/// The value of the first pair named `key`, if any.
pub fn lookup(vars: &Vec<(String, String)>, key: &str) -> (r: Option<String>)
    ensures
        match value_of(vars@, key@) {
            Some(v) => r matches Some(s) && s@ == v,
            None => r is None,
        },
{
    let mut i: usize = 0;
    while i < vars.len()
        invariant
            0 <= i <= vars@.len(),
            value_in(vars@, key@, i as int) is None,
        decreases vars@.len() - i,
    {
        if str_eq(vars[i].0.as_str(), key) {
            let v = vars[i].1.clone();
            proof {
                assert(value_in(vars@, key@, i as int + 1) == Some(vars@[i as int].1@));
                lemma_value_stays(vars@, key@, i as int + 1, vars@.len() as int);
            }
            return Some(v);
        }
        i = i + 1;
    }
    None
}

/// Once found among the first `m` pairs, a value stays the one found.
pub proof fn lemma_value_stays(vars: Seq<(String, String)>, key: Seq<char>, m: int, n: int)
    requires
        0 <= m <= n,
        value_in(vars, key, m) is Some,
    ensures
        value_in(vars, key, n) == value_in(vars, key, m),
    decreases n - m,
{
    if n > m {
        lemma_value_stays(vars, key, m, n - 1);
    }
}

/// Names of the settings, in the order they are looked up.
pub open spec fn setting_names() -> Seq<Seq<char>> {
    seq![
        "SENTRY_DSN"@, "SENTRY_ENV"@, "CLERK_PUB_API_KEY"@, "CLERK_PUB_ENCRYPTION_KEY"@, "DB"@,
        "QSTASH_URL"@, "QSTASH_TOKEN"@, "QSTASH_CURRENT_SIGNING_KEY"@, "QSTASH_NEXT_SIGNING_KEY"@, "ROOT_URL"@,
    ]
}

/// The values of the settings in `c`, in the order of `setting_names`.
pub open spec fn config_values(c: Config) -> Seq<Seq<char>> {
    seq![
        c.sentry_dsn@, c.sentry_env@, c.clerk_pub_api_key@, c.clerk_pub_encryption_key@, c.db@,
        c.qstash_url@, c.qstash_token@, c.qstash_current_signing_key@, c.qstash_next_signing_key@, c.root_url@,
    ]
}

fn required(vars: &Vec<(String, String)>, key: &'static str) -> (r: Result<String, String>)
    ensures
        match value_of(vars@, key@) {
            Some(v) => r matches Ok(s) && s@ == v,
            None => r matches Err(k) && k@ == key@,
        },
{
    match lookup(vars, key) {
        Some(v) => Ok(v),
        None => Err(String::from_str(key)),
    }
}

/// Builds the configuration from `(name, value)` pairs, taking the first
/// value of each name. Fails with the name of the first setting missing.
pub fn load(vars: &Vec<(String, String)>) -> (r: Result<Config, String>)
    ensures
        (r is Ok) <==> (forall|k: int| 0 <= k < 10 ==> value_of(vars@, #[trigger] setting_names()[k]) is Some),
        r matches Ok(c) ==> forall|k: int| 0 <= k < 10 ==> value_of(vars@, #[trigger] setting_names()[k]) == Some(config_values(c)[k]),
        r matches Err(name) ==> exists|k: int| 0 <= k < 10 && setting_names()[k] == name@
            && value_of(vars@, setting_names()[k]) is None
            && forall|j: int| 0 <= j < k ==> value_of(vars@, #[trigger] setting_names()[j]) is Some,
{
    let names = Ghost(setting_names());
    let sentry_dsn = match required(vars, "SENTRY_DSN") { Ok(v) => v, Err(e) => { assert(names@[0] == e@); return Err(e); } };
    let sentry_env = match required(vars, "SENTRY_ENV") { Ok(v) => v, Err(e) => { assert(names@[1] == e@); return Err(e); } };
    let clerk_pub_api_key = match required(vars, "CLERK_PUB_API_KEY") { Ok(v) => v, Err(e) => { assert(names@[2] == e@); return Err(e); } };
    let clerk_pub_encryption_key = match required(vars, "CLERK_PUB_ENCRYPTION_KEY") { Ok(v) => v, Err(e) => { assert(names@[3] == e@); return Err(e); } };
    let db = match required(vars, "DB") { Ok(v) => v, Err(e) => { assert(names@[4] == e@); return Err(e); } };
    let qstash_url = match required(vars, "QSTASH_URL") { Ok(v) => v, Err(e) => { assert(names@[5] == e@); return Err(e); } };
    let qstash_token = match required(vars, "QSTASH_TOKEN") { Ok(v) => v, Err(e) => { assert(names@[6] == e@); return Err(e); } };
    let qstash_current_signing_key = match required(vars, "QSTASH_CURRENT_SIGNING_KEY") { Ok(v) => v, Err(e) => { assert(names@[7] == e@); return Err(e); } };
    let qstash_next_signing_key = match required(vars, "QSTASH_NEXT_SIGNING_KEY") { Ok(v) => v, Err(e) => { assert(names@[8] == e@); return Err(e); } };
    let root_url = match required(vars, "ROOT_URL") { Ok(v) => v, Err(e) => { assert(names@[9] == e@); return Err(e); } };
    Ok(Config {
        sentry_dsn,
        sentry_env,
        clerk_pub_api_key,
        clerk_pub_encryption_key,
        db,
        qstash_url,
        qstash_token,
        qstash_current_signing_key,
        qstash_next_signing_key,
        root_url,
    })
}

} // verus!
