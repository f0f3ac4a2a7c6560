use vstd::prelude::*;
use crate::text::{names_match, same_name};

verus! {

pub const DEFAULT_PORT: u16 = 3000;

pub const DEFAULT_PROXY_THREADS: usize = 4;

pub const DEFAULT_MAX_REDIRECTS: usize = 4;

pub const DEFAULT_USER_AGENT: &'static str = "stanistan";

pub open spec fn is_digit(c: char) -> bool {
    '0' <= c && c <= '9'
}

/// The number written in decimal by the digits `s`.
pub open spec fn digits_value(s: Seq<char>) -> nat
    decreases s.len(),
{
    if s.len() == 0 {
        0
    } else {
        digits_value(s.drop_last()) * 10 + ((s.last() as u32 - 48) as nat)
    }
}

/// `s` without the one leading `+` that it may have.
pub open spec fn unsigned_digits(s: Seq<char>) -> Seq<char> {
    if s.len() > 0 && s[0] == '+' {
        s.drop_first()
    } else {
        s
    }
}

/// The value of an unsigned decimal numeral: an optional `+` and one or more
/// digits.
pub open spec fn decimal_of(s: Seq<char>) -> Option<nat> {
    let d = unsigned_digits(s);
    if d.len() > 0 && forall|i: int| 0 <= i < d.len() ==> is_digit(#[trigger] d[i]) {
        Some(digits_value(d))
    } else {
        None
    }
}

/// The `usize` that `s` denotes, if it is a numeral whose value fits.
pub open spec fn usize_of(s: Seq<char>) -> Option<usize> {
    match decimal_of(s) {
        Some(v) => if v <= usize::MAX {
            Some(v as usize)
        } else {
            None
        },
        None => None,
    }
}

/// Parses an unsigned decimal numeral, as `usize::from_str` does.
pub fn parse_usize(s: &str) -> (r: Option<usize>)
    ensures
        r == usize_of(s@),
{
    let n = s.unicode_len();
    let start: usize = if n > 0 && s.get_char(0) == '+' {
        1
    } else {
        0
    };
    let ghost d = unsigned_digits(s@);
    assert(d =~= s@.subrange(start as int, n as int));
    if start == n {
        return None;
    }
    let mut v: usize = 0;
    let mut overflow = false;
    let mut i: usize = start;
    assert(d.subrange(0, 0) =~= Seq::<char>::empty());
    while i < n
        invariant
            start <= i <= n,
            n == s@.len(),
            d == s@.subrange(start as int, n as int),
            d == unsigned_digits(s@),
            d.len() > 0,
            forall|j: int| 0 <= j < i - start ==> is_digit(#[trigger] d[j]),
            !overflow ==> v == digits_value(d.subrange(0, i - start)),
            overflow ==> digits_value(d.subrange(0, i - start)) > usize::MAX,
        decreases n - i,
    {
        let c = s.get_char(i);
        assert(d[i - start] == c);
        if c < '0' || c > '9' {
            assert(!is_digit(d[i - start]));
            return None;
        }
        let dig = (c as u32 - 48) as usize;
        let ghost prev = d.subrange(0, i - start);
        assert(d.subrange(0, i - start + 1).drop_last() =~= prev);
        assert(digits_value(d.subrange(0, i - start + 1)) == digits_value(prev) * 10 + dig);
        if !overflow {
            if v > (usize::MAX - dig) / 10 {
                overflow = true;
            } else {
                v = v * 10 + dig;
            }
        }
        i = i + 1;
    }
    assert(d.subrange(0, n - start) =~= d);
    if overflow {
        None
    } else {
        Some(v)
    }
}

/// Why a configuration could not be accepted.
#[derive(Debug, Clone, Copy, PartialEq, Eq, Structural)]
pub enum ConfigError {
    /// `PORT` is not a number from 0 to 65535.
    BadPort,
    /// `NUM_THREADS` is not a number, or is 0.
    BadThreadCount,
    /// `MAX_REDIRECTS` is not a number.
    BadMaxRedirects,
}

pub open spec fn opt_view(s: Option<&str>) -> Option<Seq<char>> {
    match s {
        Some(t) => Some(t@),
        None => None,
    }
}

/// The port, thread count and redirect bound that the settings give, or the
/// first of them that is malformed.
pub open spec fn settings_of(
    port: Option<Seq<char>>,
    num_threads: Option<Seq<char>>,
    max_redirects: Option<Seq<char>>,
) -> Result<(u16, usize, usize), ConfigError> {
    let p: Option<u16> = match port {
        None => Some(DEFAULT_PORT),
        Some(s) => match usize_of(s) {
            Some(v) => if v <= 65535 {
                Some(v as u16)
            } else {
                None
            },
            None => None,
        },
    };
    let t: Option<usize> = match num_threads {
        None => Some(DEFAULT_PROXY_THREADS),
        Some(s) => match usize_of(s) {
            Some(v) => if v > 0 {
                Some(v)
            } else {
                None
            },
            None => None,
        },
    };
    let m: Option<usize> = match max_redirects {
        None => Some(DEFAULT_MAX_REDIRECTS),
        Some(s) => usize_of(s),
    };
    if p is None {
        Err(ConfigError::BadPort)
    } else if t is None {
        Err(ConfigError::BadThreadCount)
    } else if m is None {
        Err(ConfigError::BadMaxRedirects)
    } else {
        Ok((p->0, t->0, m->0))
    }
}

/// The per-process configuration, shared read-only by every worker.
pub struct EnvOptions {
    /// The port bound on the loopback address.
    pub port: u16,
    pub num_threads: usize,
    pub max_number_redirects: usize,
    pub user_agent: String,
    /// The content types that a successful upstream response may have.
    pub mime_types: Vec<String>,
}

impl EnvOptions {
    pub open spec fn wf(&self) -> bool {
        self.num_threads > 0
    }

    /// `content_type` is one of the allowed types, up to ASCII case.
    pub open spec fn allows(&self, content_type: Seq<char>) -> bool {
        exists|i: int|
            0 <= i < self.mime_types@.len() && same_name(
                #[trigger] self.mime_types@[i]@,
                content_type,
            )
    }

    pub fn is_valid_content_type(&self, content_type: &str) -> (r: bool)
        ensures
            r == self.allows(content_type@),
    {
        let n = self.mime_types.len();
        let mut i: usize = 0;
        while i < n
            invariant
                n == self.mime_types@.len(),
                i <= n,
                forall|j: int|
                    0 <= j < i ==> !same_name(#[trigger] self.mime_types@[j]@, content_type@),
            decreases n - i,
        {
            if names_match(self.mime_types[i].as_str(), content_type) {
                return true;
            }
            i = i + 1;
        }
        false
    }

    /// Builds the configuration from the settings given (each `None` where
    /// it is unset), applying the defaults for those that are unset.
    pub fn create(
        port: Option<&str>,
        num_threads: Option<&str>,
        max_redirects: Option<&str>,
        user_agent: Option<String>,
        mime_types: Vec<String>,
    ) -> (r: Result<EnvOptions, ConfigError>)
        ensures
            match settings_of(opt_view(port), opt_view(num_threads), opt_view(max_redirects)) {
                Ok((p, t, m)) => r matches Ok(o) && {
                    &&& o.wf()
                    &&& o.port == p
                    &&& o.num_threads == t
                    &&& o.max_number_redirects == m
                    &&& user_agent matches Some(u) ==> o.user_agent@ == u@
                    &&& user_agent is None ==> o.user_agent@ == DEFAULT_USER_AGENT@
                    &&& o.mime_types@ == mime_types@
                },
                Err(e) => r == Err::<EnvOptions, ConfigError>(e),
            },
    {
        let port_value: u16 = match port {
            Some(p) => match parse_usize(p) {
                Some(v) => {
                    if v > 65535 {
                        return Err(ConfigError::BadPort);
                    }
                    v as u16
                },
                None => {
                    return Err(ConfigError::BadPort);
                },
            },
            None => DEFAULT_PORT,
        };
        let threads: usize = match num_threads {
            Some(t) => match parse_usize(t) {
                Some(v) => {
                    if v == 0 {
                        return Err(ConfigError::BadThreadCount);
                    }
                    v
                },
                None => {
                    return Err(ConfigError::BadThreadCount);
                },
            },
            None => DEFAULT_PROXY_THREADS,
        };
        let redirects: usize = match max_redirects {
            Some(m) => match parse_usize(m) {
                Some(v) => v,
                None => {
                    return Err(ConfigError::BadMaxRedirects);
                },
            },
            None => DEFAULT_MAX_REDIRECTS,
        };
        let agent = match user_agent {
            Some(u) => u,
            None => DEFAULT_USER_AGENT.to_string(),
        };
        Ok(
            EnvOptions {
                port: port_value,
                num_threads: threads,
                max_number_redirects: redirects,
                user_agent: agent,
                mime_types,
            },
        )
    }
}

} // verus!
