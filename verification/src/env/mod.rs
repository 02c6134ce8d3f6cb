//! The environment: named text values, of which the stores read the keys
//! they need.
//!
//! The environment is handed in as a list of pairs of a name and a value.
//! Where a name occurs more than once, its first pair counts. It is read
//! whole or not at all: where one key is missing or cannot be read there is
//! no environment, not one with a gap.

use crate::config::Profile;
use crate::env::config::Config;
use crate::env::db::{DBEnv, DBEnvView};
use crate::path::{pushed, Path, SysPath};
use vstd::prelude::*;

pub mod config;
pub mod db;

verus! {

/// Where the environment file lies below `root`.
pub open spec fn env_file_below(root: Seq<char>) -> Seq<char> {
    pushed(pushed(root, "system"@), ".env"@)
}

/// The environment file of the project.
pub fn env_file(paths: &Path) -> (file: SysPath)
    ensures
        file@ == env_file_below(paths@),
{
    paths.join_two("system", ".env")
}

/// The keys that the stores read.
#[derive(Clone, Copy, Debug, PartialEq, Eq)]
pub enum Key {
    Profile,
    Host,
    Port,
    DbName,
    DbUser,
    Password,
}

impl Key {
    /// The name under which the key stands in the environment.
    pub open spec fn name(self) -> Seq<char> {
        match self {
            Key::Profile => "PROFILE"@,
            Key::Host => "HOST"@,
            Key::Port => "PORT"@,
            Key::DbName => "DBNAME"@,
            Key::DbUser => "DBUSER"@,
            Key::Password => "PASSWORD"@,
        }
    }

    /// The name under which the key stands in the environment.
    pub fn as_str(&self) -> (text: &'static str)
        ensures
            text@ == self.name(),
    {
        match self {
            Key::Profile => "PROFILE",
            Key::Host => "HOST",
            Key::Port => "PORT",
            Key::DbName => "DBNAME",
            Key::DbUser => "DBUSER",
            Key::Password => "PASSWORD",
        }
    }
}

/// Why the environment could not be read into a store.
#[derive(Clone, Copy, Debug, PartialEq, Eq)]
pub enum EnvError {
    /// The key has no value.
    Missing(Key),
    /// The key has a value that cannot be read as what the key stands for.
    Invalid(Key),
}

/// What each name is bound to by a list of pairs.
pub open spec fn bindings(vars: Seq<(Seq<char>, Seq<char>)>) -> Map<Seq<char>, Seq<char>>
    decreases vars.len(),
{
    if vars.len() == 0 {
        Map::empty()
    } else {
        bindings(vars.drop_first()).insert(vars[0].0, vars[0].1)
    }
}

/// The value of `key` in `env`, or that it is missing.
pub open spec fn required(env: Map<Seq<char>, Seq<char>>, key: Key) -> Result<
    Seq<char>,
    EnvError,
> {
    if env.contains_key(key.name()) {
        Ok(env[key.name()])
    } else {
        Err(EnvError::Missing(key))
    }
}

/// A name is bound by its first pair, and not at all where no pair holds it.
pub proof fn lemma_bound_by_first(vars: Seq<(Seq<char>, Seq<char>)>, name: Seq<char>, at: int)
    requires
        0 <= at <= vars.len(),
        forall|j: int| 0 <= j < at ==> vars[j].0 != name,
        at < vars.len() ==> vars[at].0 == name,
    ensures
        at < vars.len() ==> bindings(vars).contains_key(name) && bindings(vars)[name] == vars[at].1,
        at == vars.len() ==> !bindings(vars).contains_key(name),
    decreases vars.len(),
{
    if vars.len() > 0 && at > 0 {
        let rest = vars.drop_first();
        assert forall|j: int| 0 <= j < at - 1 implies rest[j].0 != name by {
            assert(rest[j] == vars[j + 1]);
        }
        if at < vars.len() {
            assert(rest[at - 1] == vars[at]);
        }
        lemma_bound_by_first(rest, name, at - 1);
        assert(vars[0].0 != name);
    }
}

/// The value that `vars` binds `name` to.
pub fn lookup(vars: &Vec<(String, String)>, name: &str) -> (value: Option<String>)
    ensures
        match value {
            Some(text) => bindings(vars.deep_view()).contains_key(name@) && text@ == bindings(
                vars.deep_view(),
            )[name@],
            None => !bindings(vars.deep_view()).contains_key(name@),
        },
{
    let wanted = String::from_str(name);
    let ghost all = vars.deep_view();
    let mut at: usize = 0;
    while at < vars.len()
        invariant
            at <= vars.len(),
            all == vars.deep_view(),
            wanted@ == name@,
            forall|j: int| 0 <= j < at ==> all[j].0 != name@,
        decreases vars.len() - at,
    {
        assert(all[at as int] == (vars[at as int].0@, vars[at as int].1@));
        if vars[at].0 == wanted {
            proof {
                lemma_bound_by_first(all, name@, at as int);
            }
            return Some(vars[at].1.clone());
        }
        at = at + 1;
    }
    proof {
        lemma_bound_by_first(all, name@, at as int);
    }
    None
}

/// The value of a key that a store cannot do without.
pub fn require(vars: &Vec<(String, String)>, key: Key) -> (value: Result<String, EnvError>)
    ensures
        match value {
            Ok(text) => required(bindings(vars.deep_view()), key) == Ok::<Seq<char>, EnvError>(
                text@,
            ),
            Err(why) => required(bindings(vars.deep_view()), key) == Err::<Seq<char>, EnvError>(
                why,
            ),
        },
{
    match lookup(vars, key.as_str()) {
        Some(text) => Ok(text),
        None => Err(EnvError::Missing(key)),
    }
}

/// What an environment is made of.
pub struct EnvironmentView {
    pub profile: Profile,
    pub db: DBEnvView,
}

/// The environment of the process: the profile and the database parameters.
#[derive(Debug, PartialEq, Eq)]
pub struct Environment {
    config: Config,
    db: DBEnv,
}

impl View for Environment {
    type V = EnvironmentView;

    closed spec fn view(&self) -> EnvironmentView {
        EnvironmentView { profile: self.config@, db: self.db@ }
    }
}

impl Environment {
    /// What a list of bindings gives: the profile, then the database
    /// parameters; the first key that fails decides the error.
    pub open spec fn loaded(env: Map<Seq<char>, Seq<char>>) -> Result<EnvironmentView, EnvError> {
        match Config::loaded(env) {
            Err(why) => Err(why),
            Ok(profile) => match DBEnv::loaded(env) {
                Err(why) => Err(why),
                Ok(db) => Ok(EnvironmentView { profile, db }),
            },
        }
    }

    /// Reads the environment. Either all of it is read or none.
    pub fn read_env(vars: &Vec<(String, String)>) -> (env: Result<Environment, EnvError>)
        ensures
            match env {
                Ok(read) => Environment::loaded(bindings(vars.deep_view())) == Ok::<
                    EnvironmentView,
                    EnvError,
                >(read@),
                Err(why) => Environment::loaded(bindings(vars.deep_view())) == Err::<
                    EnvironmentView,
                    EnvError,
                >(why),
            },
    {
        let config = match Config::read_env(vars) {
            Ok(config) => config,
            Err(why) => {
                return Err(why);
            },
        };
        match DBEnv::read_env(vars) {
            Ok(db) => Ok(Environment { config, db }),
            Err(why) => Err(why),
        }
    }

    /// The profile.
    pub fn config(&self) -> (config: &Config)
        ensures
            config@ == self@.profile,
    {
        &self.config
    }

    /// The database parameters.
    pub fn db(&self) -> (db: &DBEnv)
        ensures
            db@ == self@.db,
    {
        &self.db
    }

    /// Bindings that lack one of the six keys give no environment, whatever
    /// else they hold.
    pub proof fn lemma_every_key_is_required(env: Map<Seq<char>, Seq<char>>, key: Key)
        requires
            !env.contains_key(key.name()),
        ensures
            Environment::loaded(env) is Err,
    {
    }

    /// What is read from bindings holds what they bind the keys to: the
    /// profile that `PROFILE` names, the port that `PORT` spells, and the
    /// four texts as they stand.
    pub proof fn lemma_loaded_holds_the_bindings(env: Map<Seq<char>, Seq<char>>)
        requires
            Environment::loaded(env) is Ok,
        ensures
            ({
                let read = Environment::loaded(env)->Ok_0;
                &&& read.profile.name() == env[Key::Profile.name()]
                &&& read.db.host == env[Key::Host.name()]
                &&& Some(read.db.port) == crate::env::db::port_number(env[Key::Port.name()])
                &&& read.db.db_name == env[Key::DbName.name()]
                &&& read.db.user == env[Key::DbUser.name()]
                &&& read.db.pass == env[Key::Password.name()]
            }),
    {
        let text = env[Key::Profile.name()];
        Profile::lemma_named_inverts_name(text, Profile::Debug);
        Profile::lemma_named_inverts_name(text, Profile::Production);
    }
}

} // verus!
