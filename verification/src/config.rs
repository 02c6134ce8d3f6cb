//! The configuration: what is logged, whether it is saved and how it is
//! shown, and the profile under which the process runs.
//!
//! The first three come from the configuration file. The profile never does:
//! it is taken from the environment, whatever the file holds in its place.

use crate::env::config::Config;
use crate::env::{bindings, Key};
use crate::path::{pushed, Path, SysPath};
use crate::singleton::Singleton;
use vstd::prelude::*;

verus! {

/// The deployment mode, which selects the logging backend.
#[derive(Clone, Copy, Debug, PartialEq, Eq, Structural)]
pub enum Profile {
    Debug,
    Production,
}

impl Profile {
    /// The name by which the environment calls the profile.
    pub open spec fn name(self) -> Seq<char> {
        match self {
            Profile::Debug => "DEBUG"@,
            Profile::Production => "PRODUCTION"@,
        }
    }

    /// The profile that `text` names, where it names one.
    pub open spec fn named(text: Seq<char>) -> Option<Profile> {
        if text == Profile::Debug.name() {
            Some(Profile::Debug)
        } else if text == Profile::Production.name() {
            Some(Profile::Production)
        } else {
            None
        }
    }

    /// The name by which the environment calls the profile.
    pub fn as_str(&self) -> (text: &'static str)
        ensures
            text@ == self.name(),
    {
        match self {
            Profile::Debug => "DEBUG",
            Profile::Production => "PRODUCTION",
        }
    }

    /// Reads a profile from its name.
    pub fn parse(text: &str) -> (profile: Option<Profile>)
        ensures
            profile == Profile::named(text@),
    {
        let given = String::from_str(text);
        if given == String::from_str("DEBUG") {
            Some(Profile::Debug)
        } else if given == String::from_str("PRODUCTION") {
            Some(Profile::Production)
        } else {
            None
        }
    }

    /// Each profile is read back from its own name, and from no other text.
    pub proof fn lemma_named_inverts_name(text: Seq<char>, profile: Profile)
        ensures
            Profile::named(text) == Some(profile) <==> text == profile.name(),
    {
        reveal_strlit("DEBUG");
        reveal_strlit("PRODUCTION");
        assert(Profile::Debug.name().len() != Profile::Production.name().len());
    }
}

/// How grave a log record is.
#[derive(Clone, Copy, Debug, PartialEq, Eq, Structural)]
pub enum Severity {
    Trace,
    Info,
    Warn,
    Error,
}

/// Which severities are logged.
#[derive(Clone, Copy, Debug, PartialEq, Eq, Structural)]
pub struct Kinds {
    pub trace: bool,
    pub info: bool,
    pub warn: bool,
    pub error: bool,
}

impl Kinds {
    /// Whether records of the given severity are logged.
    pub open spec fn allows(self, severity: Severity) -> bool {
        match severity {
            Severity::Trace => self.trace,
            Severity::Info => self.info,
            Severity::Warn => self.warn,
            Severity::Error => self.error,
        }
    }

    /// Whether records of the given severity are logged.
    pub fn enabled(&self, severity: Severity) -> (allowed: bool)
        ensures
            allowed == self.allows(severity),
    {
        match severity {
            Severity::Trace => self.trace,
            Severity::Info => self.info,
            Severity::Warn => self.warn,
            Severity::Error => self.error,
        }
    }
}

/// The logging policy: a master switch, and one switch for each severity.
#[derive(Clone, Copy, Debug, PartialEq, Eq, Structural)]
pub struct Log {
    pub on: bool,
    pub kinds: Kinds,
}

impl Log {
    /// Whether a record of the given severity is logged: logging is on, and
    /// so is the severity.
    pub open spec fn allows(self, severity: Severity) -> bool {
        self.on && self.kinds.allows(severity)
    }

    /// Whether a record of the given severity is logged.
    pub fn enabled(&self, severity: Severity) -> (allowed: bool)
        ensures
            allowed == self.allows(severity),
    {
        self.on && self.kinds.enabled(severity)
    }
}

/// What the configuration file holds.
#[derive(Debug, PartialEq, Eq)]
pub struct ConfigFile {
    pub log: Log,
    pub save: bool,
    pub debug: bool,
    /// A profile written in the file. It is read and then ignored.
    pub profile: Option<String>,
}

/// What a configuration is made of.
pub struct ConfigsView {
    pub log: Log,
    pub save: bool,
    pub debug: bool,
    pub profile: Profile,
}

/// The configuration in force.
#[derive(Clone, Copy, Debug, PartialEq, Eq)]
pub struct Configs {
    log: Log,
    save: bool,
    debug: bool,
    profile: Profile,
}

impl View for Configs {
    type V = ConfigsView;

    closed spec fn view(&self) -> ConfigsView {
        ConfigsView { log: self.log, save: self.save, debug: self.debug, profile: self.profile }
    }
}

impl Configs {
    /// The configuration that a file and a profile give: the file's policy
    /// and flags, and the profile in the place of whatever the file names.
    pub open spec fn merged(file: ConfigFile, profile: Profile) -> ConfigsView {
        ConfigsView { log: file.log, save: file.save, debug: file.debug, profile }
    }

    /// Where the configuration file lies below `root`.
    pub open spec fn file_below(root: Seq<char>) -> Seq<char> {
        pushed(pushed(root, "system"@), "configs.json"@)
    }

    /// The configuration file of the project.
    pub fn file(paths: &Path) -> (file: SysPath)
        ensures
            file@ == Configs::file_below(paths@),
    {
        paths.join_two("system", "configs.json")
    }

    /// Puts the file's content and the environment's profile together.
    pub fn new(file: &ConfigFile, env: &Config) -> (configs: Configs)
        ensures
            configs@ == Configs::merged(*file, env@),
    {
        Configs { log: file.log, save: file.save, debug: file.debug, profile: env.kind() }
    }

    /// One access to the store of the configuration: loads with `load`
    /// where the store is vacant, and hands out the configuration that the
    /// store then holds. Once the store holds an outcome, `load` is not run
    /// again.
    pub fn get<E, F: FnOnce() -> Result<Configs, E>>(
        store: &mut Singleton<Configs, E>,
        load: F,
    ) -> (configs: Option<Configs>)
        requires
            *old(store) is Vacant ==> load.requires(()),
        ensures
            old(store).accessed(*final(store), load),
            match *final(store) {
                Singleton::Ready(held) => configs matches Some(read) && read@ == held@,
                _ => configs is None,
            },
    {
        store.load_with(load);
        match store.get() {
            Some(held) => Some(*held),
            None => None,
        }
    }

    /// The logging policy.
    pub fn log(&self) -> (log: &Log)
        ensures
            *log == self@.log,
    {
        &self.log
    }

    /// The profile under which the process runs.
    pub fn profile(&self) -> (profile: Profile)
        ensures
            profile == self@.profile,
    {
        self.profile
    }

    /// Whether log records are saved by the backend.
    pub fn save(&self) -> (save: bool)
        ensures
            save == self@.save,
    {
        self.save
    }

    /// Whether shown log records go to the debug view.
    pub fn debug(&self) -> (debug: bool)
        ensures
            debug == self@.debug,
    {
        self.debug
    }

    /// The profile of a configuration is the one that the environment names,
    /// whatever the configuration file holds: of every environment from which
    /// a profile can be read, and of every file.
    pub proof fn lemma_profile_from_environment(
        vars: Seq<(Seq<char>, Seq<char>)>,
        file: ConfigFile,
    )
        requires
            Config::loaded(bindings(vars)) is Ok,
        ensures
            bindings(vars).contains_key(Key::Profile.name()),
            Configs::merged(file, Config::loaded(bindings(vars))->Ok_0).profile.name() == bindings(
                vars,
            )[Key::Profile.name()],
    {
        let text = bindings(vars)[Key::Profile.name()];
        Profile::lemma_named_inverts_name(text, Profile::Debug);
        Profile::lemma_named_inverts_name(text, Profile::Production);
    }
}

} // verus!
