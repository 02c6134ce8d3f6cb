//! The database connection parameters, as the environment gives them.

use crate::env::{bindings, require, required, EnvError, Environment, Key};
use crate::singleton::Singleton;
use vstd::prelude::*;

verus! {

/// The value of a decimal digit.
pub open spec fn digit(c: char) -> Option<nat> {
    if '0' <= c <= '9' {
        Some((c as nat - '0' as nat) as nat)
    } else {
        None
    }
}

/// The number that a run of decimal digits spells; 0 for the empty run, and
/// nothing where a character is no digit.
pub open spec fn decimal(digits: Seq<char>) -> Option<nat>
    decreases digits.len(),
{
    if digits.len() == 0 {
        Some(0)
    } else {
        match (decimal(digits.drop_last()), digit(digits.last())) {
            (Some(high), Some(low)) => Some(high * 10 + low),
            _ => None,
        }
    }
}

/// The port that a run of digits spells: there is at least one digit, and
/// the value is at most 65535.
pub open spec fn port_of(digits: Seq<char>) -> Option<u16> {
    if digits.len() == 0 {
        None
    } else {
        match decimal(digits) {
            Some(value) => if value <= u16::MAX {
                Some(value as u16)
            } else {
                None
            },
            None => None,
        }
    }
}

/// The port that `text` spells: a run of digits, which a single `+` may
/// precede.
pub open spec fn port_number(text: Seq<char>) -> Option<u16> {
    if text.len() > 0 && text[0] == '+' {
        port_of(text.skip(1))
    } else {
        port_of(text)
    }
}

/// A run of digits spells no less than any of its beginnings, and spells
/// nothing where a beginning spells nothing.
pub proof fn lemma_decimal_grows(digits: Seq<char>, n: int)
    requires
        0 <= n <= digits.len(),
    ensures
        decimal(digits.take(n)) is None ==> decimal(digits) is None,
        decimal(digits) matches Some(whole) ==> decimal(digits.take(n))->0 <= whole,
    decreases digits.len() - n,
{
    if n == digits.len() {
        assert(digits.take(n) =~= digits);
    } else {
        lemma_decimal_grows(digits, n + 1);
        assert(digits.take(n + 1).drop_last() =~= digits.take(n));
    }
}

/// What the database parameters are made of.
pub struct DBEnvView {
    pub host: Seq<char>,
    pub port: u16,
    pub db_name: Seq<char>,
    pub user: Seq<char>,
    pub pass: Seq<char>,
}

/// The database connection parameters.
#[derive(Debug, PartialEq, Eq)]
pub struct DBEnv {
    host: String,
    port: u16,
    db_name: String,
    user: String,
    pass: String,
}

impl View for DBEnv {
    type V = DBEnvView;

    closed spec fn view(&self) -> DBEnvView {
        DBEnvView {
            host: self.host@,
            port: self.port,
            db_name: self.db_name@,
            user: self.user@,
            pass: self.pass@,
        }
    }
}

impl Clone for DBEnv {
    fn clone(&self) -> (copy: DBEnv)
        ensures
            copy@ == self@,
    {
        DBEnv {
            host: self.host.clone(),
            port: self.port,
            db_name: self.db_name.clone(),
            user: self.user.clone(),
            pass: self.pass.clone(),
        }
    }
}

/// Reads a port number.
pub fn parse_port(text: &str) -> (port: Option<u16>)
    ensures
        port == port_number(text@),
{
    let len = text.unicode_len();
    let start: usize = if len > 0 && text.get_char(0) == '+' {
        1
    } else {
        0
    };
    if start == len {
        return None;
    }
    let ghost digits = text@.skip(start as int);
    let mut value: u32 = 0;
    let mut at: usize = start;
    proof {
        assert(text@.skip(0) =~= text@);
        assert(digits.take(0) =~= Seq::<char>::empty());
    }
    while at < len
        invariant
            start <= at <= len,
            len == text@.len(),
            digits == text@.skip(start as int),
            port_number(text@) == port_of(digits),
            decimal(digits.take(at - start)) == Some(value as nat),
            value <= u16::MAX,
        decreases len - at,
    {
        let c = text.get_char(at);
        proof {
            lemma_decimal_grows(digits, at - start + 1);
            assert(digits.take(at - start + 1).drop_last() =~= digits.take(at - start));
            assert(digits.take(at - start + 1).last() == c);
        }
        if c < '0' || c > '9' {
            return None;
        }
        let low = c as u32 - '0' as u32;
        value = value * 10 + low;
        if value > u16::MAX as u32 {
            return None;
        }
        at = at + 1;
    }
    proof {
        assert(digits.take(at - start) =~= digits);
    }
    Some(value as u16)
}

impl DBEnv {
    /// What an environment gives: the five parameters, read in the order
    /// `HOST`, `PORT`, `DBNAME`, `DBUSER`, `PASSWORD`. Each key must be
    /// there, and `PORT` must spell a port number; the first that fails
    /// decides the error.
    pub open spec fn loaded(env: Map<Seq<char>, Seq<char>>) -> Result<DBEnvView, EnvError> {
        match required(env, Key::Host) {
            Err(why) => Err(why),
            Ok(host) => match required(env, Key::Port) {
                Err(why) => Err(why),
                Ok(port_text) => match port_number(port_text) {
                    None => Err(EnvError::Invalid(Key::Port)),
                    Some(port) => match required(env, Key::DbName) {
                        Err(why) => Err(why),
                        Ok(db_name) => match required(env, Key::DbUser) {
                            Err(why) => Err(why),
                            Ok(user) => match required(env, Key::Password) {
                                Err(why) => Err(why),
                                Ok(pass) => Ok(DBEnvView { host, port, db_name, user, pass }),
                            },
                        },
                    },
                },
            },
        }
    }

    /// Reads the database parameters from the environment. Either all of
    /// them are read or none is.
    pub fn read_env(vars: &Vec<(String, String)>) -> (env: Result<DBEnv, EnvError>)
        ensures
            match env {
                Ok(read) => DBEnv::loaded(bindings(vars.deep_view())) == Ok::<
                    DBEnvView,
                    EnvError,
                >(read@),
                Err(why) => DBEnv::loaded(bindings(vars.deep_view())) == Err::<
                    DBEnvView,
                    EnvError,
                >(why),
            },
    {
        let host = match require(vars, Key::Host) {
            Ok(text) => text,
            Err(why) => {
                return Err(why);
            },
        };
        let port_text = match require(vars, Key::Port) {
            Ok(text) => text,
            Err(why) => {
                return Err(why);
            },
        };
        let port = match parse_port(port_text.as_str()) {
            Some(port) => port,
            None => {
                return Err(EnvError::Invalid(Key::Port));
            },
        };
        let db_name = match require(vars, Key::DbName) {
            Ok(text) => text,
            Err(why) => {
                return Err(why);
            },
        };
        let user = match require(vars, Key::DbUser) {
            Ok(text) => text,
            Err(why) => {
                return Err(why);
            },
        };
        let pass = match require(vars, Key::Password) {
            Ok(text) => text,
            Err(why) => {
                return Err(why);
            },
        };
        Ok(DBEnv { host, port, db_name, user, pass })
    }

    /// One access to the store of the environment: loads with `load` where
    /// the store is vacant, and hands out the database parameters that the store then
    /// holds. Once the store holds an outcome, `load` is not run again.
    pub fn open<E, F: FnOnce() -> Result<Environment, E>>(
        store: &mut Singleton<Environment, E>,
        load: F,
    ) -> (env: Option<DBEnv>)
        requires
            *old(store) is Vacant ==> load.requires(()),
        ensures
            old(store).accessed(*final(store), load),
            match *final(store) {
                Singleton::Ready(held) => env matches Some(read) && read@ == held@.db,
                _ => env is None,
            },
    {
        store.load_with(load);
        match store.get() {
            Some(held) => Some(held.db().clone()),
            None => None,
        }
    }

    /// The host of the database.
    pub fn host(&self) -> (host: String)
        ensures
            host@ == self@.host,
    {
        self.host.clone()
    }

    /// The port of the database.
    pub fn port(&self) -> (port: u16)
        ensures
            port == self@.port,
    {
        self.port
    }

    /// The name of the database.
    pub fn db_name(&self) -> (db_name: String)
        ensures
            db_name@ == self@.db_name,
    {
        self.db_name.clone()
    }

    /// The user to connect as.
    pub fn user(&self) -> (user: String)
        ensures
            user@ == self@.user,
    {
        self.user.clone()
    }

    /// The password to connect with.
    pub fn pass(&self) -> (pass: String)
        ensures
            pass@ == self@.pass,
    {
        self.pass.clone()
    }

    /// An environment without a value for `PORT` gives no parameters,
    /// whatever else it holds.
    pub proof fn lemma_port_is_required(env: Map<Seq<char>, Seq<char>>)
        requires
            !env.contains_key(Key::Port.name()),
        ensures
            DBEnv::loaded(env) is Err,
    {
    }
}

} // verus!
