//! Settings read from the process environment.

use vstd::prelude::*;
use crate::text::str_eq;

verus! {

/// The environment a service starts in, as a list of `(name, value)` pairs.
pub struct EnvVars {
    pub vars: Vec<(String, String)>,
}

/// The value of the first variable named `name`, if there is one.
pub open spec fn lookup(vars: Seq<(String, String)>, name: Seq<char>) -> Option<Seq<char>>
    decreases vars.len(),
{
    if vars.len() == 0 {
        None
    } else if vars[0].0@ == name {
        Some(vars[0].1@)
    } else {
        lookup(vars.drop_first(), name)
    }
}

/// A boolean setting: exactly `true` or `false`.
pub open spec fn parse_bool(s: Seq<char>) -> Option<bool> {
    if s == "true"@ {
        Some(true)
    } else if s == "false"@ {
        Some(false)
    } else {
        None
    }
}

/// Why a setting could not be read.
#[derive(Debug, PartialEq, Eq)]
pub enum ConfigError {
    /// The variable is not set.
    MissingVar { name: String },
    /// The variable is set but is neither `true` nor `false`.
    InvalidBool { name: String, value: String },
}

impl ConfigError {
    /// The error describes how reading `name` (a boolean setting if
    /// `is_bool`) from `vars` fails.
    pub open spec fn describes(&self, vars: Seq<(String, String)>, name: Seq<char>, is_bool: bool) -> bool {
        match self {
            ConfigError::MissingVar { name: n } => n@ == name && lookup(vars, name) is None,
            ConfigError::InvalidBool { name: n, value } => {
                &&& n@ == name
                &&& is_bool
                &&& lookup(vars, name) == Some(value@)
                &&& parse_bool(value@) is None
            },
        }
    }

    /// The text of the error: `<NAME> must be set!` for a missing variable,
    /// `<NAME> must be true or false!` for a malformed boolean.
    pub fn to_string(&self) -> (s: String)
        ensures
            self matches ConfigError::MissingVar { name } ==> s@ == name@ + " must be set!"@,
            self matches ConfigError::InvalidBool { name, .. } ==> s@ == name@ + " must be true or false!"@,
    {
        match self {
            ConfigError::MissingVar { name } => {
                let mut s = name.clone();
                s.append(" must be set!");
                s
            },
            ConfigError::InvalidBool { name, .. } => {
                let mut s = name.clone();
                s.append(" must be true or false!");
                s
            },
        }
    }
}

/// Reads the boolean written in `s`, if it is `true` or `false`.
pub fn parse_bool_text(s: &str) -> (b: Option<bool>)
    ensures
        b == parse_bool(s@),
{
    if str_eq(s, "true") {
        Some(true)
    } else if str_eq(s, "false") {
        Some(false)
    } else {
        None
    }
}

impl EnvVars {
    /// An environment with no variables.
    pub fn new() -> (e: EnvVars)
        ensures
            e.vars@.len() == 0,
    {
        EnvVars { vars: Vec::new() }
    }

    /// Adds the variable `name` with `value` after the existing ones.
    pub fn push(&mut self, name: String, value: String)
        ensures
            final(self).vars@ == old(self).vars@.push((name, value)),
    {
        self.vars.push((name, value));
    }

    /// The value of the first variable named `name`.
    pub fn get(&self, name: &str) -> (v: Option<String>)
        ensures
            match v {
                Some(s) => lookup(self.vars@, name@) == Some(s@),
                None => lookup(self.vars@, name@) is None,
            },
    {
        let n = self.vars.len();
        let mut i: usize = 0;
        assert(self.vars@.skip(0) =~= self.vars@);
        while i < n
            invariant
                n == self.vars@.len(),
                i <= n,
                lookup(self.vars@, name@) == lookup(self.vars@.skip(i as int), name@),
            decreases n - i,
        {
            let ghost rest = self.vars@.skip(i as int);
            assert(rest[0] == self.vars@[i as int]);
            assert(rest.drop_first() =~= self.vars@.skip(i + 1));
            if str_eq(self.vars[i].0.as_str(), name) {
                return Some(self.vars[i].1.clone());
            }
            i = i + 1;
        }
        assert(self.vars@.skip(n as int).len() == 0);
        None
    }

    /// The value of the setting `name`, or the error that it is missing.
    pub fn get_env_var(&self, name: &str) -> (r: Result<String, ConfigError>)
        ensures
            match r {
                Ok(s) => lookup(self.vars@, name@) == Some(s@),
                Err(e) => e.describes(self.vars@, name@, false),
            },
    {
        match self.get(name) {
            Some(v) => Ok(v),
            None => Err(ConfigError::MissingVar { name: String::from_str(name) }),
        }
    }

    /// The boolean setting `name`, or the error that it is missing or malformed.
    pub fn get_env_bool(&self, name: &str) -> (r: Result<bool, ConfigError>)
        ensures
            match r {
                Ok(b) => lookup(self.vars@, name@) matches Some(s) && parse_bool(s) == Some(b),
                Err(e) => e.describes(self.vars@, name@, true),
            },
    {
        match self.get(name) {
            Some(v) => match parse_bool_text(v.as_str()) {
                Some(b) => Ok(b),
                None => Err(ConfigError::InvalidBool { name: String::from_str(name), value: v }),
            },
            None => Err(ConfigError::MissingVar { name: String::from_str(name) }),
        }
    }
}

/// Adding a variable after the others: reading its name gives the new value
/// when the name was not set before, and the earlier value when it was; other
/// names read as before.
pub proof fn lookup_after_push(vars: Seq<(String, String)>, name: String, value: String, other: Seq<char>)
    ensures
        lookup(vars, name@) is None ==> lookup(vars.push((name, value)), name@) == Some(value@),
        lookup(vars, name@) is Some ==> lookup(vars.push((name, value)), name@) == lookup(vars, name@),
        other != name@ ==> lookup(vars.push((name, value)), other) == lookup(vars, other),
    decreases vars.len(),
{
    let pushed = vars.push((name, value));
    reveal_with_fuel(lookup, 2);
    if vars.len() > 0 {
        assert(pushed[0] == vars[0]);
        assert(pushed.drop_first() =~= vars.drop_first().push((name, value)));
        lookup_after_push(vars.drop_first(), name, value, other);
    } else {
        assert(pushed[0] == (name, value));
        assert(pushed.drop_first() =~= Seq::<(String, String)>::empty());
    }
}

} // verus!
