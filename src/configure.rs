use vstd::prelude::*;

use crate::text::join;

verus! {

/// The configuration properties that the `configure` command takes.
#[derive(Clone, Copy, Debug, PartialEq, Eq, Structural)]
pub enum ConfigureKeys {
    Host,
    SshPort,
    User,
    Token,
    Reset,
    List,
}

impl ConfigureKeys {
    pub open spec fn lower_name(self) -> Seq<char> {
        match self {
            ConfigureKeys::Host => "host"@,
            ConfigureKeys::SshPort => "sshport"@,
            ConfigureKeys::User => "user"@,
            ConfigureKeys::Token => "token"@,
            ConfigureKeys::Reset => "reset"@,
            ConfigureKeys::List => "list"@,
        }
    }

    /// The key's name in lower case.
    pub fn name(self) -> (r: &'static str)
        ensures
            r@ == self.lower_name(),
    {
        match self {
            ConfigureKeys::Host => "host",
            ConfigureKeys::SshPort => "sshport",
            ConfigureKeys::User => "user",
            ConfigureKeys::Token => "token",
            ConfigureKeys::Reset => "reset",
            ConfigureKeys::List => "list",
        }
    }

    /// The name of the property in git's configuration.
    pub fn config_key(self) -> (r: String)
        ensures
            r@ == "gitlab."@ + self.lower_name(),
    {
        join("gitlab.", self.name())
    }
}

/// The `configure` command: shows or changes one property.
#[derive(Clone, Debug)]
pub struct Configure {
    pub key: ConfigureKeys,
    /// The new value; where absent, the current one is shown.
    pub value: Option<String>,
}

/// What `configure` has the caller do.
#[derive(Clone, Debug)]
pub enum ConfigAction {
    /// Run `git` with these arguments.
    Git(Vec<String>),
    /// Show the property of this key.
    Print(ConfigureKeys),
}

pub open spec fn strings_view(v: Vec<String>) -> Seq<Seq<char>> {
    v@.map_values(|s: String| s@)
}

pub open spec fn set_args(key: ConfigureKeys, value: Seq<char>) -> Seq<Seq<char>> {
    seq!["config"@, "--global"@, "gitlab."@ + key.lower_name(), value]
}

pub open spec fn reset_args() -> Seq<Seq<char>> {
    seq!["config"@, "--global"@, "--remove-section"@, "gitlab"@]
}

impl Configure {
    /// Sets the property where a value is given, and shows it otherwise.
    pub fn configure(&self) -> (r: ConfigAction)
        ensures
            self.value is Some ==> r is Git && strings_view(r->Git_0) == set_args(
                self.key,
                self.value->Some_0@,
            ),
            self.value is None ==> r == ConfigAction::Print(self.key),
    {
        match &self.value {
            Some(v) => ConfigAction::Git(Configure::set_value(self.key, v.as_str())),
            None => ConfigAction::Print(self.key),
        }
    }

    /// The arguments of `git` that set property `key` to `value` globally.
    pub fn set_value(key: ConfigureKeys, value: &str) -> (r: Vec<String>)
        ensures
            strings_view(r) == set_args(key, value@),
    {
        let mut r: Vec<String> = Vec::new();
        r.push(String::from_str("config"));
        r.push(String::from_str("--global"));
        r.push(key.config_key());
        r.push(String::from_str(value));
        assert(strings_view(r) =~= set_args(key, value@));
        r
    }

    /// The arguments of `git` that remove the whole `gitlab` section.
    pub fn reset() -> (r: Vec<String>)
        ensures
            strings_view(r) == reset_args(),
    {
        let mut r: Vec<String> = Vec::new();
        r.push(String::from_str("config"));
        r.push(String::from_str("--global"));
        r.push(String::from_str("--remove-section"));
        r.push(String::from_str("gitlab"));
        assert(strings_view(r) =~= reset_args());
        r
    }
}

} // verus!
