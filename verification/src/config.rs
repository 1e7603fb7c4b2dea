//! The configuration of the service, and how its numbers and switches are
//! read from text.

use vstd::prelude::*;
use vstd::string::StrSliceExecFns;

verus! {

/// What the service is configured with: where its data lives, the secret that
/// signs tokens, and how mail is sent.
#[derive(Debug, Clone)]
pub struct Config {
    pub db_url: String,
    pub jwt_secret: String,
    pub mail_username: String,
    pub mail_password: String,
    pub mail_host: String,
    pub mail_port: u16,
    pub mail_email: String,
    pub mail_author: String,
    pub mail_tls: bool,
}

/// A value that is not of its kind.
#[derive(Debug, Clone, Copy, PartialEq, Eq, Structural)]
pub enum ConfigError {
    /// The mail port is no number from 0 to 65535.
    Port,
    /// The TLS switch is neither `true` nor `false`.
    Tls,
}

impl ConfigError {
    /// What is wrong, in words.
    pub fn message(&self) -> (text: &'static str)
        ensures
            text@ == match *self {
                ConfigError::Port => "MAIL_PORT must be a number"@,
                ConfigError::Tls => "MAIL_TLS must be a boolean"@,
            },
    {
        match self {
            ConfigError::Port => "MAIL_PORT must be a number",
            ConfigError::Tls => "MAIL_TLS must be a boolean",
        }
    }
}

/// One of the characters `0` to `9`.
pub open spec fn is_decimal(c: char) -> bool {
    48 <= c as u32 <= 57
}

/// Every character is a decimal digit.
pub open spec fn all_decimal(s: Seq<char>) -> bool {
    forall|i: int| 0 <= i < s.len() ==> is_decimal(#[trigger] s[i])
}

/// The number that decimal digits write.
pub open spec fn decimal_value(s: Seq<char>) -> nat
    decreases s.len(),
{
    if s.len() == 0 {
        0
    } else {
        decimal_value(s.drop_last()) * 10 + (s.last() as u32 - 48) as nat
    }
}

/// The text without a plus sign in front.
pub open spec fn unsigned_digits(s: Seq<char>) -> Seq<char> {
    if s.len() > 0 && s[0] == '+' {
        s.skip(1)
    } else {
        s
    }
}

/// The port that a text names: decimal digits, at least one, with or without
/// a plus sign in front, that write a number up to 65535.
pub open spec fn port_of(s: Seq<char>) -> Option<u16> {
    let digits = unsigned_digits(s);
    if digits.len() > 0 && all_decimal(digits) && decimal_value(digits) <= 65535 {
        Some(decimal_value(digits) as u16)
    } else {
        None
    }
}

/// The switch that a text names: `true` or `false`, and nothing else.
pub open spec fn flag_of(s: Seq<char>) -> Option<bool> {
    if s == "true"@ {
        Some(true)
    } else if s == "false"@ {
        Some(false)
    } else {
        None
    }
}

/// The TLS switch, which is off where it is not set.
pub open spec fn tls_of(text: Option<&str>) -> Option<bool> {
    match text {
        Some(t) => flag_of(t@),
        None => Some(false),
    }
}

/// More digits make no smaller number.
proof fn lemma_value_grows(s: Seq<char>, k: int)
    requires
        all_decimal(s),
        0 <= k <= s.len(),
    ensures
        decimal_value(s.take(k)) <= decimal_value(s),
    decreases s.len() - k,
{
    if k == s.len() {
        assert(s.take(k) =~= s);
    } else {
        lemma_value_grows(s, k + 1);
        assert(s.take(k + 1).drop_last() =~= s.take(k));
        assert(is_decimal(s[k]));
    }
}

/// Reads a port number.
pub fn parse_port(text: &str) -> (r: Option<u16>)
    ensures
        r == port_of(text@),
{
    let n = text.unicode_len();
    let start: usize = if n > 0 && text.get_char(0) == '+' {
        1
    } else {
        0
    };
    let ghost digits = unsigned_digits(text@);
    assert(digits =~= text@.skip(start as int));
    if start >= n {
        return None;
    }
    let mut value: u32 = 0;
    let mut i: usize = start;
    assert(digits.take(0) =~= Seq::<char>::empty());
    while i < n
        invariant
            start <= i <= n,
            n == text@.len(),
            digits == text@.skip(start as int),
            digits == unsigned_digits(text@),
            all_decimal(digits.take(i - start)),
            value == decimal_value(digits.take(i - start)),
            value <= 65535,
        decreases n - i,
    {
        let c = text.get_char(i) as u32;
        assert(digits[i - start] == text@[i as int]);
        if c < 48 || c > 57 {
            assert(!is_decimal(digits[i - start]));
            return None;
        }
        let ghost longer = digits.take(i - start + 1);
        assert(longer.drop_last() =~= digits.take(i - start));
        assert(longer.last() == digits[i - start]);
        assert forall|j: int| 0 <= j < longer.len() implies is_decimal(#[trigger] longer[j]) by {
            if j < i - start {
                assert(longer[j] == digits.take(i - start)[j]);
            }
        }
        value = value * 10 + (c - 48);
        assert(value == decimal_value(longer));
        if value > 65535 {
            proof {
                if all_decimal(digits) {
                    lemma_value_grows(digits, i - start + 1);
                }
            }
            return None;
        }
        i += 1;
    }
    assert(digits.take(n - start) =~= digits);
    Some(value as u16)
}

/// Reads a switch.
pub fn parse_flag(text: &str) -> (r: Option<bool>)
    ensures
        r == flag_of(text@),
{
    let given = text.to_owned();
    if given == "true".to_owned() {
        Some(true)
    } else if given == "false".to_owned() {
        Some(false)
    } else {
        None
    }
}

impl Config {
    /// Builds the configuration from the values as they were given: the port
    /// and the TLS switch as text, the switch possibly not at all. A port
    /// that is none is reported before a switch that is none.
    pub fn from_values(
        db_url: String,
        jwt_secret: String,
        mail_username: String,
        mail_password: String,
        mail_host: String,
        mail_port: &str,
        mail_email: String,
        mail_author: String,
        mail_tls: Option<&str>,
    ) -> (r: Result<Config, ConfigError>)
        ensures
            match (port_of(mail_port@), tls_of(mail_tls)) {
                (Some(port), Some(tls)) => r == Ok::<Config, ConfigError>(
                    Config {
                        db_url,
                        jwt_secret,
                        mail_username,
                        mail_password,
                        mail_host,
                        mail_port: port,
                        mail_email,
                        mail_author,
                        mail_tls: tls,
                    },
                ),
                (None, _) => r == Err::<Config, ConfigError>(ConfigError::Port),
                (Some(_), None) => r == Err::<Config, ConfigError>(ConfigError::Tls),
            },
    {
        let port = match parse_port(mail_port) {
            Some(port) => port,
            None => {
                return Err(ConfigError::Port);
            },
        };
        let tls = match mail_tls {
            Some(text) => match parse_flag(text) {
                Some(tls) => tls,
                None => {
                    return Err(ConfigError::Tls);
                },
            },
            None => false,
        };
        Ok(
            Config {
                db_url,
                jwt_secret,
                mail_username,
                mail_password,
                mail_host,
                mail_port: port,
                mail_email,
                mail_author,
                mail_tls: tls,
            },
        )
    }
}

} // verus!
