use vstd::prelude::*;

use crate::configure::ConfigureKeys;
use crate::text::{decimal, join, push_decimal};
use vstd::string::*;

verus! {

/// The `gitlab` section of the user's git configuration.
#[derive(Clone, Debug)]
pub struct GitlabConfig {
    pub host: String,
    pub sshport: u16,
    pub user: String,
    pub token: String,
}

pub open spec fn api_of(host: Seq<char>) -> Seq<char> {
    "https://"@ + host + "/api/v4"@
}

pub open spec fn clone_base_of(host: Seq<char>, port: u16) -> Seq<char> {
    "ssh://git@"@ + host + ":"@ + decimal(port as nat) + "/"@
}

impl GitlabConfig {
    /// Base URL of the service's REST API.
    pub fn api(&self) -> (r: String)
        ensures
            r@ == api_of(self.host@),
    {
        let mut r = join("https://", self.host.as_str());
        r.append("/api/v4");
        r
    }

    /// Prefix of the SSH URLs that projects are cloned from.
    pub fn clone_base(&self) -> (r: String)
        ensures
            r@ == clone_base_of(self.host@, self.sshport),
    {
        let mut r = join("ssh://git@", self.host.as_str());
        r.append(":");
        push_decimal(&mut r, self.sshport);
        r.append("/");
        r
    }
}

pub open spec fn describe_of(c: GitlabConfig) -> Seq<char> {
    "host: "@ + c.host@ + "\nsshport: "@ + decimal(c.sshport as nat) + "\nuser: "@ + c.user@
        + "\ntoken: "@ + c.token@
}

pub open spec fn is_digit(c: char) -> bool {
    '0' <= c && c <= '9'
}

/// The number that a string of decimal digits stands for.
pub open spec fn digits_value(s: Seq<char>) -> nat
    decreases s.len(),
{
    if s.len() == 0 {
        0
    } else {
        digits_value(s.drop_last()) * 10 + ((s.last() as u32) - ('0' as u32)) as nat
    }
}

/// The text after an optional leading `+`.
pub open spec fn unsigned_part(s: Seq<char>) -> Seq<char> {
    if s.len() > 0 && s[0] == '+' {
        s.drop_first()
    } else {
        s
    }
}

pub open spec fn all_digits(s: Seq<char>) -> bool {
    forall|i: int| 0 <= i < s.len() ==> is_digit(#[trigger] s[i])
}

/// A port number in the text form that Rust's integer parsing takes: an
/// optional `+`, then one or more decimal digits, of value at most 65535.
pub open spec fn port_of(s: Seq<char>) -> Option<u16> {
    let d = unsigned_part(s);
    if d.len() > 0 && all_digits(d) && digits_value(d) <= 65535 {
        Some(digits_value(d) as u16)
    } else {
        None
    }
}

/// Reads a port number; `None` where `s` is not one.
pub fn parse_port(s: &str) -> (r: Option<u16>)
    ensures
        r == port_of(s@),
{
    let n = s.unicode_len();
    let start: usize = if n > 0 && s.get_char(0) == '+' {
        1
    } else {
        0
    };
    let ghost d = unsigned_part(s@);
    assert(d =~= s@.subrange(start as int, n as int));
    if start >= n {
        return None;
    }
    let mut value: u32 = 0;
    let mut i: usize = start;
    while i < n
        invariant
            start <= i <= n,
            n == s@.len(),
            d == unsigned_part(s@),
            d =~= s@.subrange(start as int, n as int),
            value <= 65535,
            value == digits_value(s@.subrange(start as int, i as int)),
            forall|j: int| start <= j < i ==> is_digit(#[trigger] s@[j]),
        decreases n - i,
    {
        let c = s.get_char(i);
        if !('0' <= c && c <= '9') {
            assert(!is_digit(d[i - start]));
            assert(!all_digits(d));
            return None;
        }
        assert(s@.subrange(start as int, i + 1).drop_last() =~= s@.subrange(start as int, i as int));
        let next: u32 = value * 10 + ((c as u32) - ('0' as u32));
        if next > 65535 {
            proof {
                if all_digits(d) {
                    assert(d.subrange(0, i + 1 - start) =~= s@.subrange(start as int, i + 1));
                    lemma_digits_value_grows(d, (i + 1 - start) as int);
                }
            }
            return None;
        }
        value = next;
        i = i + 1;
    }
    assert(forall|j: int| 0 <= j < d.len() ==> d[j] == s@[j + start]);
    Some(value as u16)
}

/// A longer string of digits has a value at least that of its prefix.
proof fn lemma_digits_value_grows(s: Seq<char>, k: int)
    requires
        0 <= k <= s.len(),
        forall|i: int| 0 <= i < s.len() ==> is_digit(#[trigger] s[i]),
    ensures
        digits_value(s) >= digits_value(s.subrange(0, k)),
    decreases s.len(),
{
    if k < s.len() {
        assert(s.drop_last().subrange(0, k) =~= s.subrange(0, k));
        lemma_digits_value_grows(s.drop_last(), k);
    } else {
        assert(s.subrange(0, k) =~= s);
    }
}

/// Why the configuration cannot be read.
#[derive(Clone, Copy, Debug, PartialEq, Eq, Structural)]
pub enum ConfigError {
    /// The `sshport` property is not a port number.
    InvalidPort,
}

impl GitlabConfig {
    /// The configuration from the properties of the `gitlab` section; absent
    /// ones take their defaults: no host, port 22, `default_user`, no token.
    pub fn from_props(
        host: Option<String>,
        sshport: Option<String>,
        user: Option<String>,
        token: Option<String>,
        default_user: String,
    ) -> (r: Result<GitlabConfig, ConfigError>)
        ensures
            r is Err <==> (sshport is Some && port_of(sshport->Some_0@) is None),
            r is Ok ==> ({
                let c = r->Ok_0;
                &&& c.host@ == (if host is Some { host->Some_0@ } else { Seq::empty() })
                &&& c.sshport == (if sshport is Some { port_of(sshport->Some_0@)->Some_0 } else { 22 })
                &&& c.user@ == (if user is Some { user->Some_0@ } else { default_user@ })
                &&& c.token@ == (if token is Some { token->Some_0@ } else { Seq::empty() })
            }),
    {
        let sshport: u16 = match sshport {
            Some(p) => match parse_port(p.as_str()) {
                Some(n) => n,
                None => {
                    return Err(ConfigError::InvalidPort);
                },
            },
            None => 22,
        };
        Ok(GitlabConfig {
            host: match host {
                Some(h) => h,
                None => String::new(),
            },
            sshport,
            user: match user {
                Some(u) => u,
                None => default_user,
            },
            token: match token {
                Some(t) => t,
                None => String::new(),
            },
        })
    }

    /// The whole configuration, one property per line.
    pub fn describe(&self) -> (r: String)
        ensures
            r@ == describe_of(*self),
    {
        let mut r = join("host: ", self.host.as_str());
        r.append("\nsshport: ");
        push_decimal(&mut r, self.sshport);
        r.append("\nuser: ");
        r.append(self.user.as_str());
        r.append("\ntoken: ");
        r.append(self.token.as_str());
        r
    }

    /// The text that shows property `key`; `None` for `Reset`, which shows nothing.
    pub fn value_of(&self, key: ConfigureKeys) -> (r: Option<String>)
        ensures
            key == ConfigureKeys::Reset <==> r is None,
            key == ConfigureKeys::Host ==> r->Some_0@ == self.host@,
            key == ConfigureKeys::SshPort ==> r->Some_0@ == decimal(self.sshport as nat),
            key == ConfigureKeys::User ==> r->Some_0@ == self.user@,
            key == ConfigureKeys::Token ==> r->Some_0@ == self.token@,
            key == ConfigureKeys::List ==> r->Some_0@ == describe_of(*self),
    {
        match key {
            ConfigureKeys::Host => Some(self.host.clone()),
            ConfigureKeys::SshPort => {
                let mut r = String::new();
                push_decimal(&mut r, self.sshport);
                Some(r)
            },
            ConfigureKeys::User => Some(self.user.clone()),
            ConfigureKeys::Token => Some(self.token.clone()),
            ConfigureKeys::Reset => None,
            ConfigureKeys::List => Some(self.describe()),
        }
    }
}

} // verus!
