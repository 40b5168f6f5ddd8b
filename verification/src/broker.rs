//! The address of the message broker, as the converter reads it.

use vstd::prelude::*;
use crate::config::{lookup, ConfigError, EnvVars};

verus! {

/// A decimal digit.
pub open spec fn is_digit(c: char) -> bool {
    '0' <= c && c <= '9'
}

/// The value of a string of decimal digits.
pub open spec fn digits_value(s: Seq<char>) -> nat
    decreases s.len(),
{
    if s.len() == 0 {
        0
    } else {
        digits_value(s.drop_last()) * 10 + (s.last() as nat - 48) as nat
    }
}

/// The digits of a number, after an optional leading `+`.
pub open spec fn unsigned_digits(s: Seq<char>) -> Seq<char> {
    if s.len() > 0 && s[0] == '+' {
        s.drop_first()
    } else {
        s
    }
}

/// The port written in decimal in `s`: an optional `+`, then one or more
/// digits whose value fits in 16 bits.
pub open spec fn parse_port(s: Seq<char>) -> Option<u16> {
    let d = unsigned_digits(s);
    if d.len() > 0 && (forall|i: int| 0 <= i < d.len() ==> is_digit(#[trigger] d[i])) && digits_value(d)
        <= 65535 {
        Some(digits_value(d) as u16)
    } else {
        None
    }
}

proof fn digits_value_grows(s: Seq<char>, i: int)
    requires
        0 <= i <= s.len(),
        forall|j: int| 0 <= j < s.len() ==> is_digit(#[trigger] s[j]),
    ensures
        digits_value(s.subrange(0, i)) <= digits_value(s),
    decreases s.len() - i,
{
    if i < s.len() {
        digits_value_grows(s, i + 1);
        let t = s.subrange(0, i + 1);
        assert(t.drop_last() =~= s.subrange(0, i));
    } else {
        assert(s.subrange(0, i) =~= s);
    }
}

/// Reads a port number written in decimal, as `u16::from_str_radix(s, 10)` does.
pub fn parse_port_text(s: &str) -> (p: Option<u16>)
    ensures
        p == parse_port(s@),
{
    let n = s.unicode_len();
    let mut start: usize = 0;
    if n > 0 && s.get_char(0) == '+' {
        start = 1;
    }
    let ghost d = unsigned_digits(s@);
    assert(d =~= s@.subrange(start as int, n as int));
    if start >= n {
        return None;
    }
    let mut value: u32 = 0;
    let mut i: usize = start;
    while i < n
        invariant
            n == s@.len(),
            start <= i <= n,
            d =~= s@.subrange(start as int, n as int),
            d == unsigned_digits(s@),
            forall|j: int| 0 <= j < i - start ==> is_digit(#[trigger] d[j]),
            value == digits_value(d.subrange(0, i - start)),
            value <= 65535,
        decreases n - i,
    {
        let c = s.get_char(i);
        if !('0' <= c && c <= '9') {
            assert(d[i - start] == c);
            assert(!is_digit(d[i - start]));
            return None;
        }
        let digit = (c as u32) - 48;
        proof {
            let t = d.subrange(0, i - start + 1);
            assert(t.drop_last() =~= d.subrange(0, i - start));
            assert(t.last() == c);
        }
        if value > 6553 || value * 10 + digit > 65535 {
            proof {
                let k = i - start + 1;
                assert(digits_value(d.subrange(0, k)) > 65535) by (nonlinear_arith)
                    requires
                        digits_value(d.subrange(0, k)) == value * 10 + digit,
                        value > 6553 || value * 10 + digit > 65535,
                        digit <= 9,
                ;
                if forall|j: int| 0 <= j < d.len() ==> is_digit(#[trigger] d[j]) {
                    digits_value_grows(d, k);
                }
            }
            return None;
        }
        value = value * 10 + digit;
        i = i + 1;
    }
    assert(d.subrange(0, n - start) =~= d);
    Some(value as u16)
}

/// Where and as whom to reach the broker.
#[derive(Debug)]
pub struct BrokerAddress {
    pub host: String,
    pub port: u16,
    pub user: String,
    pub password: String,
}

/// Why the broker's address could not be read.
#[derive(Debug)]
pub enum AddressError {
    /// A variable is not set.
    Missing(ConfigError),
    /// `AMQP_PORT` is not a port number.
    PortNotANumber,
}

impl AddressError {
    /// The text of the error: `<NAME> must be set!` or
    /// `AMQP_PORT must be a number`.
    pub fn to_string(&self) -> (s: String)
        ensures
            self matches AddressError::Missing(ConfigError::MissingVar { name }) ==> s@ == name@
                + " must be set!"@,
            self is PortNotANumber ==> s@ == "AMQP_PORT must be a number"@,
    {
        match self {
            AddressError::Missing(e) => e.to_string(),
            AddressError::PortNotANumber => String::from_str("AMQP_PORT must be a number"),
        }
    }
}

/// Reads `AMQP_HOST`, `AMQP_PORT` (checked to be a port number at once),
/// `AMQP_USER` and `AMQP_PASSWORD`, in this order; the first that fails is the
/// error.
pub fn broker_address(env: &EnvVars) -> (r: Result<BrokerAddress, AddressError>)
    ensures
        lookup(env.vars@, "AMQP_HOST"@) is None ==> (r matches Err(AddressError::Missing(e)) && e.describes(
            env.vars@,
            "AMQP_HOST"@,
            false,
        )),
        lookup(env.vars@, "AMQP_HOST"@) is Some && lookup(env.vars@, "AMQP_PORT"@) is None ==> (r matches Err(
            AddressError::Missing(e),
        ) && e.describes(env.vars@, "AMQP_PORT"@, false)),
        lookup(env.vars@, "AMQP_HOST"@) is Some && (lookup(env.vars@, "AMQP_PORT"@) matches Some(p) && parse_port(
            p,
        ) is None) ==> (r matches Err(AddressError::PortNotANumber)),
        lookup(env.vars@, "AMQP_HOST"@) is Some && (lookup(env.vars@, "AMQP_PORT"@) matches Some(p) && parse_port(
            p,
        ) is Some) && lookup(env.vars@, "AMQP_USER"@) is None ==> (r matches Err(AddressError::Missing(e))
            && e.describes(env.vars@, "AMQP_USER"@, false)),
        lookup(env.vars@, "AMQP_HOST"@) is Some && (lookup(env.vars@, "AMQP_PORT"@) matches Some(p) && parse_port(
            p,
        ) is Some) && lookup(env.vars@, "AMQP_USER"@) is Some && lookup(env.vars@, "AMQP_PASSWORD"@) is None ==> (
        r matches Err(AddressError::Missing(e)) && e.describes(env.vars@, "AMQP_PASSWORD"@, false)),
        r matches Ok(a) ==> lookup(env.vars@, "AMQP_HOST"@) == Some(a.host@) && (lookup(
            env.vars@,
            "AMQP_PORT"@,
        ) matches Some(p) && parse_port(p) == Some(a.port)) && lookup(env.vars@, "AMQP_USER"@) == Some(a.user@)
            && lookup(env.vars@, "AMQP_PASSWORD"@) == Some(a.password@),
        lookup(env.vars@, "AMQP_HOST"@) is Some && (lookup(env.vars@, "AMQP_PORT"@) matches Some(p) && parse_port(
            p,
        ) is Some) && lookup(env.vars@, "AMQP_USER"@) is Some && lookup(env.vars@, "AMQP_PASSWORD"@) is Some
            ==> r is Ok,
{
    let host = match env.get_env_var("AMQP_HOST") {
        Ok(h) => h,
        Err(e) => return Err(AddressError::Missing(e)),
    };
    let port_text = match env.get_env_var("AMQP_PORT") {
        Ok(p) => p,
        Err(e) => return Err(AddressError::Missing(e)),
    };
    let port = match parse_port_text(port_text.as_str()) {
        Some(p) => p,
        None => return Err(AddressError::PortNotANumber),
    };
    let user = match env.get_env_var("AMQP_USER") {
        Ok(u) => u,
        Err(e) => return Err(AddressError::Missing(e)),
    };
    let password = match env.get_env_var("AMQP_PASSWORD") {
        Ok(p) => p,
        Err(e) => return Err(AddressError::Missing(e)),
    };
    Ok(BrokerAddress { host, port, user, password })
}

} // verus!
