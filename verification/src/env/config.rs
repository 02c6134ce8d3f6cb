//! The profile, as the environment names it.

use crate::config::Profile;
use crate::env::{bindings, require, required, EnvError, Environment, Key};
use crate::singleton::Singleton;
use vstd::prelude::*;

verus! {

/// The part of the environment that says how the process is deployed.
#[derive(Clone, Copy, Debug, PartialEq, Eq)]
pub struct Config {
    profile: Profile,
}

impl View for Config {
    type V = Profile;

    closed spec fn view(&self) -> Profile {
        self.profile
    }
}

impl Config {
    /// What an environment gives: the profile that `PROFILE` names. The key
    /// must be there, and its value must name a profile.
    pub open spec fn loaded(env: Map<Seq<char>, Seq<char>>) -> Result<Profile, EnvError> {
        match required(env, Key::Profile) {
            Ok(text) => match Profile::named(text) {
                Some(profile) => Ok(profile),
                None => Err(EnvError::Invalid(Key::Profile)),
            },
            Err(why) => Err(why),
        }
    }

    /// Reads the profile from the environment.
    pub fn read_env(vars: &Vec<(String, String)>) -> (config: Result<Config, EnvError>)
        ensures
            match config {
                Ok(read) => Config::loaded(bindings(vars.deep_view())) == Ok::<Profile, EnvError>(
                    read@,
                ),
                Err(why) => Config::loaded(bindings(vars.deep_view())) == Err::<Profile, EnvError>(
                    why,
                ),
            },
    {
        let text = match require(vars, Key::Profile) {
            Ok(text) => text,
            Err(why) => {
                return Err(why);
            },
        };
        match Profile::parse(text.as_str()) {
            Some(profile) => Ok(Config { profile }),
            None => Err(EnvError::Invalid(Key::Profile)),
        }
    }

    /// One access to the store of the environment: loads with `load` where
    /// the store is vacant, and hands out the profile that the store then
    /// holds. Once the store holds an outcome, `load` is not run again.
    pub fn open<E, F: FnOnce() -> Result<Environment, E>>(
        store: &mut Singleton<Environment, E>,
        load: F,
    ) -> (config: Option<Config>)
        requires
            *old(store) is Vacant ==> load.requires(()),
        ensures
            old(store).accessed(*final(store), load),
            match *final(store) {
                Singleton::Ready(held) => config matches Some(read) && read@ == held@.profile,
                _ => config is None,
            },
    {
        store.load_with(load);
        match store.get() {
            Some(held) => Some(*held.config()),
            None => None,
        }
    }

    /// The profile's name, as the environment has it.
    pub fn profile(&self) -> (name: String)
        ensures
            name@ == self@.name(),
    {
        String::from_str(self.profile.as_str())
    }

    /// The profile.
    pub fn kind(&self) -> (profile: Profile)
        ensures
            profile == self@,
    {
        self.profile
    }
}

} // verus!
