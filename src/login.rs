use vstd::prelude::*;

use crate::gitlab_config::GitlabConfig;
use crate::html::{Attr, Target};
use crate::saml::{Handshake, Request, SamlLoginStrategy};

verus! {

/// Transport failures of one request.
#[derive(Clone, Copy, Debug, PartialEq, Eq, Structural)]
pub enum NetworkFailure {
    Timeout,
    TooManyRedirects,
    Connection,
}

/// Why a login run failed.
#[derive(Clone, Debug)]
pub enum LoginError {
    /// A token is configured already and no override was given.
    AlreadyLoggedIn,
    /// The password could not be read from its source.
    Input,
    /// The request to `url` failed in transport.
    Network { kind: NetworkFailure, url: String },
    /// The request to `url` answered with a status outside 200..=299.
    HttpStatus { status: u16, url: String },
    /// No element of the page matches.
    MissingElement(Target),
    /// The element lacks the attribute, or holds an empty value in it.
    MissingAttribute(Target, Attr),
}

/// The mathematical value of a `LoginError`.
pub enum LoginErrorView {
    AlreadyLoggedIn,
    Input,
    Network { kind: NetworkFailure, url: Seq<char> },
    HttpStatus { status: u16, url: Seq<char> },
    MissingElement(Target),
    MissingAttribute(Target, Attr),
}

impl View for LoginError {
    type V = LoginErrorView;

    open spec fn view(&self) -> LoginErrorView {
        match self {
            LoginError::AlreadyLoggedIn => LoginErrorView::AlreadyLoggedIn,
            LoginError::Input => LoginErrorView::Input,
            LoginError::Network { kind, url } => LoginErrorView::Network { kind: *kind, url: url@ },
            LoginError::HttpStatus { status, url } => LoginErrorView::HttpStatus {
                status: *status,
                url: url@,
            },
            LoginError::MissingElement(t) => LoginErrorView::MissingElement(*t),
            LoginError::MissingAttribute(t, a) => LoginErrorView::MissingAttribute(*t, *a),
        }
    }
}

} // verus!

verus! {

/// Options shared by the login strategies.
#[derive(Clone, Debug)]
pub struct LoginOptions {
    /// Create a new token even where one is configured already.
    pub force: bool,
    /// The user at the identity provider; the configured user where absent.
    pub user: Option<String>,
    /// The password, given on the command line.
    pub password: Option<String>,
    /// Read the password from standard input.
    pub password_stdin: bool,
    /// Ask for the password at a masked prompt (the default).
    pub password_interactive: bool,
}

/// Where the password is taken from.
#[derive(Clone, Debug)]
pub enum PasswordSource {
    Given(String),
    Stdin,
    Interactive,
}

impl LoginOptions {
    /// The user name that the run logs in with.
    pub open spec fn user_spec(&self, config: &GitlabConfig) -> Seq<char> {
        match self.user {
            Some(u) => u@,
            None => config.user@,
        }
    }

    /// The one source the password is read from: a given password first, then
    /// standard input, then the interactive prompt.
    pub fn password_source(&self) -> (r: PasswordSource)
        ensures
            self.password is Some ==> r is Given && r->Given_0@ == self.password->Some_0@,
            self.password is None && self.password_stdin ==> r is Stdin,
            self.password is None && !self.password_stdin ==> r is Interactive,
    {
        match &self.password {
            Some(p) => PasswordSource::Given(p.clone()),
            None => if self.password_stdin {
                PasswordSource::Stdin
            } else {
                PasswordSource::Interactive
            },
        }
    }

    /// The user name that the run logs in with.
    pub fn user_for(&self, config: &GitlabConfig) -> (r: String)
        ensures
            r@ == self.user_spec(config),
    {
        match &self.user {
            Some(u) => u.clone(),
            None => config.user.clone(),
        }
    }
}

/// Refuses to go on where a token is configured already.
pub fn check_if_token_already_set(config: &GitlabConfig) -> (r: Result<(), LoginError>)
    ensures
        r is Err <==> config.token@.len() > 0,
        r is Err ==> r->Err_0@ == LoginErrorView::AlreadyLoggedIn,
{
    if config.token.as_str().is_empty() {
        Ok(())
    } else {
        Err(LoginError::AlreadyLoggedIn)
    }
}

/// The ways to log in.
#[derive(Clone, Debug)]
pub enum LoginStrategies {
    Saml(SamlLoginStrategy),
}

/// The `login` command.
#[derive(Clone, Debug)]
pub struct Login {
    pub strategy: LoginStrategies,
}

impl Login {
    /// Starts a login run with the configured strategy; see
    /// `SamlLoginStrategy::login`.
    pub fn login(&self, config: &GitlabConfig, password: String) -> (r: Result<
        (Handshake, Request),
        LoginError,
    >)
        ensures
            match self.strategy {
                LoginStrategies::Saml(s) => s.login_post(config, password@, r),
            },
    {
        match &self.strategy {
            LoginStrategies::Saml(s) => s.login(config, password),
        }
    }
}

} // verus!
