use gitlab_cli::gitlab_config::GitlabConfig;
use gitlab_cli::html::{extract, from_lookup, Attr, Target};
use gitlab_cli::login::{
    check_if_token_already_set, Login, LoginError, LoginOptions, LoginStrategies, NetworkFailure,
    PasswordSource,
};
use gitlab_cli::saml::{
    token_creation_body, token_name, token_page, Action, Body, Handshake, Method, Phase,
    SamlLoginStrategy, SessionConfig,
};

const LOGIN_PAGE: &str =
    "<html><body><form action=\"https://idp.example/login\"><input name=\"username\"></form></body></html>";
const ASSERTION_PAGE: &str = "<html><body><form action=\"https://git.example/users/auth/saml/callback\"><input type=\"hidden\" name=\"SAMLResponse\" value=\"PHNhbWw+\"></form></body></html>";
const TOKEN_PAGE: &str =
    "<html><body><form><input name=\"authenticity_token\" value=\"csrf123\"></form></body></html>";
const CREATED_PAGE: &str =
    "<html><body><input id=\"created-personal-access-token\" value=\"tok-XYZ\"></body></html>";

fn config(token: &str) -> GitlabConfig {
    GitlabConfig {
        host: "git.example".to_string(),
        sshport: 22,
        user: "alice".to_string(),
        token: token.to_string(),
    }
}

fn options(force: bool) -> LoginOptions {
    LoginOptions {
        force,
        user: None,
        password: None,
        password_stdin: false,
        password_interactive: false,
    }
}

fn new_run() -> Handshake {
    let (h, _) = Handshake::start(
        "https://idp.example/start".to_string(),
        "alice".to_string(),
        "s3cret".to_string(),
        "https://git.example/api/v4",
        "AbC123xy",
    );
    h
}

fn sent(a: Action) -> (Method, String, Body) {
    match a {
        Action::Send(r) => (r.method, r.url, r.body),
        other => panic!("expected a request, got {:?}", other),
    }
}

#[test]
fn token_name_takes_seven_random_characters() {
    assert_eq!(token_name("AbC123xy"), "gitlab-cli-AbC123x");
}

#[test]
fn token_page_is_relative_to_api() {
    assert_eq!(
        token_page("https://git.example/api/v4"),
        "https://git.example/api/v4/../../profile/personal_access_tokens"
    );
}

#[test]
fn creation_body_has_fixed_field_order() {
    assert_eq!(
        token_creation_body("abc", "gitlab-cli-AbC123x"),
        "authenticity_token=abc&personal_access_token[name]=gitlab-cli-AbC123x&personal_access_token[scopes][]=api&personal_access_token[expires_at]="
    );
}

#[test]
fn five_redirects_are_followed_and_six_are_not() {
    let s = SessionConfig::login_session();
    assert!(s.follows_redirect(1));
    assert!(s.follows_redirect(5));
    assert!(!s.follows_redirect(6));
    assert_eq!(s.timeout_secs, 5);
    assert!(s.cookie_store);
}

#[test]
fn extract_finds_first_form_action() {
    let doc = "<form action=\"/a\"></form><form action=\"/b\"></form>";
    assert_eq!(extract(doc, Target::Form, Attr::Action).unwrap(), "/a");
}

#[test]
fn extract_reports_missing_element_and_attribute() {
    assert!(matches!(
        extract("<p>no form</p>", Target::Form, Attr::Action),
        Err(LoginError::MissingElement(Target::Form))
    ));
    assert!(matches!(
        extract("<form></form>", Target::Form, Attr::Action),
        Err(LoginError::MissingAttribute(Target::Form, Attr::Action))
    ));
    assert!(matches!(
        extract("<form action=\"\"></form>", Target::Form, Attr::Action),
        Err(LoginError::MissingAttribute(Target::Form, Attr::Action))
    ));
}

#[test]
fn extract_tolerates_malformed_markup() {
    let doc = "<div><form action=\"/x\"><input value=\"v\"";
    assert_eq!(extract(doc, Target::Form, Attr::Action).unwrap(), "/x");
}

#[test]
fn from_lookup_maps_each_outcome() {
    assert!(matches!(
        from_lookup(None, Target::Input, Attr::Value),
        Err(LoginError::MissingElement(Target::Input))
    ));
    assert!(matches!(
        from_lookup(Some(None), Target::Input, Attr::Value),
        Err(LoginError::MissingAttribute(Target::Input, Attr::Value))
    ));
    assert_eq!(
        from_lookup(Some(Some("v".to_string())), Target::Input, Attr::Value).unwrap(),
        "v"
    );
}

#[test]
fn complete_run_persists_one_token() {
    let (mut h, first) = Handshake::start(
        "https://idp.example/start".to_string(),
        "alice".to_string(),
        "s3cret".to_string(),
        "https://git.example/api/v4",
        "AbC123xy",
    );
    assert_eq!(first.method, Method::Get);
    assert_eq!(first.url, "https://idp.example/start");

    let (m, url, body) = sent(h.on_response(200, LOGIN_PAGE));
    assert_eq!(m, Method::Post);
    assert_eq!(url, "https://idp.example/login");
    match body {
        Body::Form(f) => assert_eq!(
            f,
            vec![
                ("username".to_string(), "alice".to_string()),
                ("password".to_string(), "s3cret".to_string())
            ]
        ),
        other => panic!("unexpected body {:?}", other),
    }

    let (m, url, body) = sent(h.on_response(200, ASSERTION_PAGE));
    assert_eq!(m, Method::Post);
    assert_eq!(url, "https://git.example/users/auth/saml/callback");
    match body {
        Body::Form(f) => {
            assert_eq!(f, vec![("SAMLResponse".to_string(), "PHNhbWw+".to_string())])
        }
        other => panic!("unexpected body {:?}", other),
    }

    let token_url = "https://git.example/api/v4/../../profile/personal_access_tokens";
    let (m, url, _) = sent(h.on_response(204, ""));
    assert_eq!(m, Method::Get);
    assert_eq!(url, token_url);

    let (m, url, body) = sent(h.on_response(200, TOKEN_PAGE));
    assert_eq!(m, Method::Post);
    assert_eq!(url, token_url);
    match body {
        Body::Encoded(t) => assert_eq!(t, "authenticity_token=csrf123&personal_access_token[name]=gitlab-cli-AbC123x&personal_access_token[scopes][]=api&personal_access_token[expires_at]="),
        other => panic!("unexpected body {:?}", other),
    }

    match h.on_response(200, CREATED_PAGE) {
        Action::Persist(t) => assert_eq!(t, "tok-XYZ"),
        other => panic!("expected a token, got {:?}", other),
    }
    assert_eq!(h.phase(), Phase::Done);
    assert!(matches!(h.on_response(200, CREATED_PAGE), Action::Idle));
}

#[test]
fn missing_form_fails_without_persisting() {
    let mut h = new_run();
    assert!(matches!(
        h.on_response(200, "<html><body>Welcome</body></html>"),
        Action::Fail(LoginError::MissingElement(Target::Form))
    ));
    assert_eq!(h.phase(), Phase::Failed);
    assert!(matches!(h.on_response(200, CREATED_PAGE), Action::Idle));
}

#[test]
fn failed_login_post_reports_status_and_stops() {
    let mut h = new_run();
    sent(h.on_response(200, LOGIN_PAGE));
    match h.on_response(401, "denied") {
        Action::Fail(LoginError::HttpStatus { status, url }) => {
            assert_eq!(status, 401);
            assert_eq!(url, "https://idp.example/login");
        }
        other => panic!("unexpected {:?}", other),
    }
    assert!(matches!(h.on_response(200, ASSERTION_PAGE), Action::Idle));
}

#[test]
fn failed_replay_reports_status_and_stops() {
    let mut h = new_run();
    sent(h.on_response(200, LOGIN_PAGE));
    sent(h.on_response(200, ASSERTION_PAGE));
    match h.on_response(500, "") {
        Action::Fail(LoginError::HttpStatus { status, url }) => {
            assert_eq!(status, 500);
            assert_eq!(url, "https://git.example/users/auth/saml/callback");
        }
        other => panic!("unexpected {:?}", other),
    }
    assert!(matches!(h.on_response(200, TOKEN_PAGE), Action::Idle));
}

#[test]
fn network_failure_names_the_pending_url() {
    let mut h = new_run();
    match h.on_network_error(NetworkFailure::TooManyRedirects) {
        Action::Fail(LoginError::Network { kind, url }) => {
            assert_eq!(kind, NetworkFailure::TooManyRedirects);
            assert_eq!(url, "https://idp.example/start");
        }
        other => panic!("unexpected {:?}", other),
    }
    assert!(matches!(h.on_network_error(NetworkFailure::Timeout), Action::Idle));
}

#[test]
fn missing_created_token_fails() {
    let mut h = new_run();
    sent(h.on_response(200, LOGIN_PAGE));
    sent(h.on_response(200, ASSERTION_PAGE));
    sent(h.on_response(200, ""));
    sent(h.on_response(200, TOKEN_PAGE));
    assert!(matches!(
        h.on_response(200, "<p>oops</p>"),
        Action::Fail(LoginError::MissingElement(Target::CreatedToken))
    ));
}

#[test]
fn configured_token_refuses_login_without_force() {
    let s = SamlLoginStrategy {
        login_opts: options(false),
        idp_url: "https://idp.example/start".to_string(),
    };
    assert!(matches!(
        s.login(&config("abc"), "pw".to_string()),
        Err(LoginError::AlreadyLoggedIn)
    ));
    assert!(matches!(check_if_token_already_set(&config("abc")), Err(LoginError::AlreadyLoggedIn)));
    assert!(check_if_token_already_set(&config("")).is_ok());
}

#[test]
fn force_starts_a_run_with_random_token_name() {
    let s = SamlLoginStrategy {
        login_opts: options(true),
        idp_url: "https://idp.example/start".to_string(),
    };
    let (h, req) = s.login(&config("abc"), "pw".to_string()).unwrap();
    assert_eq!(req.method, Method::Get);
    assert_eq!(req.url, "https://idp.example/start");
    assert_eq!(h.phase(), Phase::AwaitLoginPage);
    let name = h.token_name();
    assert_eq!(name.len(), 18);
    assert!(name.starts_with("gitlab-cli-"));
    assert!(name[11..].chars().all(|c| c.is_ascii_alphanumeric()));
}

#[test]
fn login_dispatches_to_saml() {
    let login = Login {
        strategy: LoginStrategies::Saml(SamlLoginStrategy {
            login_opts: options(false),
            idp_url: "https://idp.example/start".to_string(),
        }),
    };
    assert!(login.login(&config(""), "pw".to_string()).is_ok());
    assert!(login.login(&config("t"), "pw".to_string()).is_err());
}

#[test]
fn explicit_user_wins_over_configured_one() {
    let mut o = options(false);
    assert_eq!(o.user_for(&config("")), "alice");
    o.user = Some("bob".to_string());
    assert_eq!(o.user_for(&config("")), "bob");
}

#[test]
fn password_source_precedence() {
    let mut o = options(false);
    assert!(matches!(o.password_source(), PasswordSource::Interactive));
    o.password_stdin = true;
    assert!(matches!(o.password_source(), PasswordSource::Stdin));
    o.password = Some("pw".to_string());
    match o.password_source() {
        PasswordSource::Given(p) => assert_eq!(p, "pw"),
        other => panic!("unexpected {:?}", other),
    }
}
