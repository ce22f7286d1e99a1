use vstd::prelude::*;

use crate::gitlab_config::{api_of, GitlabConfig};
use crate::html::{extract, extract_spec, first_attr, Attr, Target};
use crate::login::{check_if_token_already_set, LoginError, LoginErrorView, LoginOptions, NetworkFailure};
use crate::text::{join, substring};

verus! {

/// Where a service's token-management page lies, given its API base URL.
pub open spec fn token_page_url(api: Seq<char>) -> Seq<char> {
    api + "/../../profile/personal_access_tokens"@
}

/// The name of a new token: a fixed prefix and the first seven characters of
/// the random draw.
pub open spec fn token_name_of(random: Seq<char>) -> Seq<char> {
    "gitlab-cli-"@ + random.subrange(0, 7)
}

/// The form-encoded body that asks for a new API token named `name`.
pub open spec fn creation_body(csrf: Seq<char>, name: Seq<char>) -> Seq<char> {
    "authenticity_token="@ + csrf + "&personal_access_token[name]="@ + name
        + "&personal_access_token[scopes][]=api&personal_access_token[expires_at]="@
}

pub open spec fn is_success(status: u16) -> bool {
    200 <= status <= 299
}

/// The URL of the token-management page for the API base `api`.
pub fn token_page(api: &str) -> (r: String)
    ensures
        r@ == token_page_url(api@),
{
    join(api, "/../../profile/personal_access_tokens")
}

/// The token name made from a random draw of at least seven characters.
pub fn token_name(random: &str) -> (r: String)
    requires
        random@.len() >= 7,
    ensures
        r@ == token_name_of(random@),
{
    let part = substring(random, 0, 7);
    join("gitlab-cli-", part.as_str())
}

/// The body of the token-creation request.
pub fn token_creation_body(csrf: &str, name: &str) -> (r: String)
    ensures
        r@ == creation_body(csrf@, name@),
{
    let mut r = join("authenticity_token=", csrf);
    r.append("&personal_access_token[name]=");
    r.append(name);
    r.append("&personal_access_token[scopes][]=api&personal_access_token[expires_at]=");
    r
}

#[derive(Clone, Copy, Debug, PartialEq, Eq, Structural)]
pub enum Method {
    Get,
    Post,
}

/// The body of a request.
#[derive(Clone, Debug)]
pub enum Body {
    Empty,
    /// Fields sent form-encoded, in this order.
    Form(Vec<(String, String)>),
    /// Text that is form-encoded already.
    Encoded(String),
}

pub enum BodyView {
    Empty,
    Form(Seq<(Seq<char>, Seq<char>)>),
    Encoded(Seq<char>),
}

impl View for Body {
    type V = BodyView;

    open spec fn view(&self) -> BodyView {
        match self {
            Body::Empty => BodyView::Empty,
            Body::Form(f) => BodyView::Form(f@.map_values(|p: (String, String)| (p.0@, p.1@))),
            Body::Encoded(t) => BodyView::Encoded(t@),
        }
    }
}

/// One HTTP request that the login flow asks to have sent.
#[derive(Clone, Debug)]
pub struct Request {
    pub method: Method,
    pub url: String,
    pub body: Body,
}

pub struct RequestView {
    pub method: Method,
    pub url: Seq<char>,
    pub body: BodyView,
}

impl View for Request {
    type V = RequestView;

    open spec fn view(&self) -> RequestView {
        RequestView { method: self.method, url: self.url@, body: self.body@ }
    }
}

/// What the caller does next.
#[derive(Clone, Debug)]
pub enum Action {
    /// Send this request and hand its response back.
    Send(Request),
    /// Store this token in the configuration; the run is over.
    Persist(String),
    /// The run has failed with this error.
    Fail(LoginError),
    /// The run is over; nothing is left to do.
    Idle,
}

pub enum ActionView {
    Send(RequestView),
    Persist(Seq<char>),
    Fail(LoginErrorView),
    Idle,
}

impl View for Action {
    type V = ActionView;

    open spec fn view(&self) -> ActionView {
        match self {
            Action::Send(r) => ActionView::Send(r@),
            Action::Persist(t) => ActionView::Persist(t@),
            Action::Fail(e) => ActionView::Fail(e@),
            Action::Idle => ActionView::Idle,
        }
    }
}

/// The step of the login flow whose response is awaited.
#[derive(Clone, Copy, Debug, PartialEq, Eq, Structural)]
pub enum Phase {
    /// The identity provider's login page.
    AwaitLoginPage,
    /// The answer to the submitted credentials, which carries the assertion.
    AwaitLoginResult,
    /// The service's answer to the replayed assertion.
    AwaitReplay,
    /// The token-management page.
    AwaitTokenPage,
    /// The page that shows the created token.
    AwaitCreatedToken,
    Done,
    Failed,
}

impl Phase {
    pub open spec fn is_waiting(self) -> bool {
        !(self is Done || self is Failed)
    }
}

/// The state of one login run.
#[derive(Debug)]
pub struct Handshake {
    phase: Phase,
    user: String,
    password: String,
    token_url: String,
    token_name: String,
    /// The URL of the request whose response is awaited.
    pending: String,
}

pub struct HandshakeView {
    pub phase: Phase,
    pub user: Seq<char>,
    pub password: Seq<char>,
    pub token_url: Seq<char>,
    pub token_name: Seq<char>,
    pub pending: Seq<char>,
}

impl View for Handshake {
    type V = HandshakeView;

    closed spec fn view(&self) -> HandshakeView {
        HandshakeView {
            phase: self.phase,
            user: self.user@,
            password: self.password@,
            token_url: self.token_url@,
            token_name: self.token_name@,
            pending: self.pending@,
        }
    }
}

/// What the flow learns of a request: its response, or a transport failure.
pub enum EventView {
    Response { status: u16, body: Seq<char> },
    Network(NetworkFailure),
}

pub open spec fn failed(h: HandshakeView, e: LoginErrorView) -> (HandshakeView, ActionView) {
    (HandshakeView { phase: Phase::Failed, ..h }, ActionView::Fail(e))
}

pub open spec fn sent(h: HandshakeView, next: Phase, method: Method, url: Seq<char>, body: BodyView) -> (
    HandshakeView,
    ActionView,
) {
    (
        HandshakeView { phase: next, pending: url, ..h },
        ActionView::Send(RequestView { method, url, body }),
    )
}

/// The state and the request that a run starts with.
pub open spec fn start_spec(
    idp_url: Seq<char>,
    user: Seq<char>,
    password: Seq<char>,
    api: Seq<char>,
    random: Seq<char>,
) -> (HandshakeView, RequestView) {
    (
        HandshakeView {
            phase: Phase::AwaitLoginPage,
            user,
            password,
            token_url: token_page_url(api),
            token_name: token_name_of(random),
            pending: idp_url,
        },
        RequestView { method: Method::Get, url: idp_url, body: BodyView::Empty },
    )
}

/// The next state and action after a response with `status` and `body`.
pub open spec fn on_response_spec(h: HandshakeView, status: u16, body: Seq<char>) -> (
    HandshakeView,
    ActionView,
) {
    if !h.phase.is_waiting() {
        (h, ActionView::Idle)
    } else if !is_success(status) {
        failed(h, LoginErrorView::HttpStatus { status, url: h.pending })
    } else {
        match h.phase {
            Phase::AwaitLoginPage => match extract_spec(body, Target::Form, Attr::Action) {
                Err(e) => failed(h, e),
                Ok(post_url) => sent(
                    h,
                    Phase::AwaitLoginResult,
                    Method::Post,
                    post_url,
                    BodyView::Form(seq![("username"@, h.user), ("password"@, h.password)]),
                ),
            },
            Phase::AwaitLoginResult => match extract_spec(body, Target::Form, Attr::Action) {
                Err(e) => failed(h, e),
                Ok(callback) => match extract_spec(body, Target::Input, Attr::Value) {
                    Err(e) => failed(h, e),
                    Ok(assertion) => sent(
                        h,
                        Phase::AwaitReplay,
                        Method::Post,
                        callback,
                        BodyView::Form(seq![("SAMLResponse"@, assertion)]),
                    ),
                },
            },
            Phase::AwaitReplay => sent(
                h,
                Phase::AwaitTokenPage,
                Method::Get,
                h.token_url,
                BodyView::Empty,
            ),
            Phase::AwaitTokenPage => match extract_spec(
                body,
                Target::AuthenticityToken,
                Attr::Value,
            ) {
                Err(e) => failed(h, e),
                Ok(csrf) => sent(
                    h,
                    Phase::AwaitCreatedToken,
                    Method::Post,
                    h.token_url,
                    BodyView::Encoded(creation_body(csrf, h.token_name)),
                ),
            },
            _ => match extract_spec(body, Target::CreatedToken, Attr::Value) {
                Err(e) => failed(h, e),
                Ok(token) => (HandshakeView { phase: Phase::Done, ..h }, ActionView::Persist(token)),
            },
        }
    }
}

/// The next state and action after a transport failure.
pub open spec fn on_network_spec(h: HandshakeView, kind: NetworkFailure) -> (
    HandshakeView,
    ActionView,
) {
    if h.phase.is_waiting() {
        failed(h, LoginErrorView::Network { kind, url: h.pending })
    } else {
        (h, ActionView::Idle)
    }
}

pub open spec fn step_spec(h: HandshakeView, e: EventView) -> (HandshakeView, ActionView) {
    match e {
        EventView::Response { status, body } => on_response_spec(h, status, body),
        EventView::Network(kind) => on_network_spec(h, kind),
    }
}

fn field(name: &str, value: String) -> (r: (String, String))
    ensures
        r.0@ == name@,
        r.1@ == value@,
{
    (String::from_str(name), value)
}

impl Handshake {
    /// The state of a new run, and the request that it starts with.
    pub fn start(idp_url: String, user: String, password: String, api: &str, random: &str) -> (r: (
        Handshake,
        Request,
    ))
        requires
            random@.len() >= 7,
        ensures
            (r.0@, r.1@) == start_spec(idp_url@, user@, password@, api@, random@),
    {
        let request = Request { method: Method::Get, url: idp_url.clone(), body: Body::Empty };
        let h = Handshake {
            phase: Phase::AwaitLoginPage,
            user,
            password,
            token_url: token_page(api),
            token_name: token_name(random),
            pending: idp_url,
        };
        (h, request)
    }

    /// The step of the flow that the run is in.
    pub fn phase(&self) -> (r: Phase)
        ensures
            r == self@.phase,
    {
        self.phase
    }

    /// The name under which the token is requested.
    pub fn token_name(&self) -> (r: &str)
        ensures
            r@ == self@.token_name,
    {
        self.token_name.as_str()
    }

    fn fail(&mut self, e: LoginError) -> (r: Action)
        ensures
            (final(self)@, r@) == failed(old(self)@, e@),
    {
        self.phase = Phase::Failed;
        Action::Fail(e)
    }

    fn send(&mut self, next: Phase, method: Method, url: String, body: Body) -> (r: Action)
        ensures
            (final(self)@, r@) == sent(old(self)@, next, method, url@, body@),
    {
        self.phase = next;
        self.pending = url.clone();
        Action::Send(Request { method, url, body })
    }

    /// Takes the response to the pending request and says what comes next.
    pub fn on_response(&mut self, status: u16, body: &str) -> (r: Action)
        ensures
            (final(self)@, r@) == on_response_spec(old(self)@, status, body@),
    {
        if self.phase == Phase::Done || self.phase == Phase::Failed {
            return Action::Idle;
        }
        if !(200 <= status && status <= 299) {
            let url = self.pending.clone();
            return self.fail(LoginError::HttpStatus { status, url });
        }
        match self.phase {
            Phase::AwaitLoginPage => match extract(body, Target::Form, Attr::Action) {
                Err(e) => self.fail(e),
                Ok(post_url) => {
                    let mut form: Vec<(String, String)> = Vec::new();
                    form.push(field("username", self.user.clone()));
                    form.push(field("password", self.password.clone()));
                    let ghost g = seq![("username"@, self@.user), ("password"@, self@.password)];
                    assert(form@.map_values(|p: (String, String)| (p.0@, p.1@)) =~= g);
                    self.send(Phase::AwaitLoginResult, Method::Post, post_url, Body::Form(form))
                },
            },
            Phase::AwaitLoginResult => match extract(body, Target::Form, Attr::Action) {
                Err(e) => self.fail(e),
                Ok(callback) => match extract(body, Target::Input, Attr::Value) {
                    Err(e) => self.fail(e),
                    Ok(assertion) => {
                        let mut form: Vec<(String, String)> = Vec::new();
                        form.push(field("SAMLResponse", assertion));
                        let ghost g = seq![("SAMLResponse"@, assertion@)];
                        assert(form@.map_values(|p: (String, String)| (p.0@, p.1@)) =~= g);
                        self.send(Phase::AwaitReplay, Method::Post, callback, Body::Form(form))
                    },
                },
            },
            Phase::AwaitReplay => {
                let url = self.token_url.clone();
                self.send(Phase::AwaitTokenPage, Method::Get, url, Body::Empty)
            },
            Phase::AwaitTokenPage => match extract(body, Target::AuthenticityToken, Attr::Value) {
                Err(e) => self.fail(e),
                Ok(csrf) => {
                    let text = token_creation_body(csrf.as_str(), self.token_name.as_str());
                    let url = self.token_url.clone();
                    self.send(Phase::AwaitCreatedToken, Method::Post, url, Body::Encoded(text))
                },
            },
            _ => match extract(body, Target::CreatedToken, Attr::Value) {
                Err(e) => self.fail(e),
                Ok(token) => {
                    self.phase = Phase::Done;
                    Action::Persist(token)
                },
            },
        }
    }

    /// Takes a transport failure of the pending request.
    pub fn on_network_error(&mut self, kind: NetworkFailure) -> (r: Action)
        ensures
            (final(self)@, r@) == on_network_spec(old(self)@, kind),
    {
        if self.phase == Phase::Done || self.phase == Phase::Failed {
            Action::Idle
        } else {
            let url = self.pending.clone();
            self.fail(LoginError::Network { kind, url })
        }
    }
}

} // verus!

verus! {

pub open spec fn is_alphanumeric(c: char) -> bool {
    ('a' <= c && c <= 'z') || ('A' <= c && c <= 'Z') || ('0' <= c && c <= '9')
}

/// Relies on rand's `DistString::sample_string` for `Alphanumeric` with the
/// thread-local generator: `n` characters drawn from ASCII letters and digits.
#[verifier::external_body]
fn random_alphanumeric(n: usize) -> (r: String)
    ensures
        r@.len() == n,
        forall|i: int| 0 <= i < n ==> is_alphanumeric(#[trigger] r@[i]),
{
    rand::distributions::DistString::sample_string(
        &rand::distributions::Alphanumeric,
        &mut rand::thread_rng(),
        n,
    )
}

/// Login through a SAML identity provider in a browser-like flow.
#[derive(Clone, Debug)]
pub struct SamlLoginStrategy {
    pub login_opts: LoginOptions,
    /// The URL of the identity provider's login page.
    pub idp_url: String,
}

impl SamlLoginStrategy {
    /// What `login` promises of its result `r`.
    pub open spec fn login_post(
        &self,
        config: &GitlabConfig,
        password: Seq<char>,
        r: Result<(Handshake, Request), LoginError>,
    ) -> bool {
        &&& (r is Err <==> (!self.login_opts.force && config.token@.len() > 0))
        &&& (r is Err ==> r->Err_0@ == LoginErrorView::AlreadyLoggedIn)
        &&& (r is Ok ==> exists|random: Seq<char>|
            random.len() == 8 && (forall|i: int| 0 <= i < 8 ==> is_alphanumeric(#[trigger] random[i]))
                && (r->Ok_0.0@, r->Ok_0.1@) == start_spec(
                self.idp_url@,
                self.login_opts.user_spec(config),
                password,
                api_of(config.host@),
                random,
            ))
    }

    /// Starts a run: refuses where a token is configured and no override was
    /// given, and otherwise returns the run's state and first request, with a
    /// token name made from eight random letters and digits.
    pub fn login(&self, config: &GitlabConfig, password: String) -> (r: Result<
        (Handshake, Request),
        LoginError,
    >)
        ensures
            self.login_post(config, password@, r),
    {
        if !self.login_opts.force {
            match check_if_token_already_set(config) {
                Err(e) => {
                    return Err(e);
                },
                Ok(()) => {},
            }
        }
        let user = self.login_opts.user_for(config);
        let api = config.api();
        let random = random_alphanumeric(8);
        let ghost pw = password@;
        let r = Handshake::start(self.idp_url.clone(), user, password, api.as_str(), random.as_str());
        assert((r.0@, r.1@) == start_spec(
            self.idp_url@,
            self.login_opts.user_spec(config),
            pw,
            api_of(config.host@),
            random@,
        ));
        Ok(r)
    }
}

} // verus!

verus! {

/// The states and actions of a run that takes `events` in order from `h`.
pub open spec fn run(h: HandshakeView, events: Seq<EventView>) -> (HandshakeView, Seq<ActionView>)
    decreases events.len(),
{
    if events.len() == 0 {
        (h, Seq::empty())
    } else {
        let (next, a) = step_spec(h, events[0]);
        let (last, rest) = run(next, events.drop_first());
        (last, seq![a] + rest)
    }
}

/// The body of a successful response; `None` for a failure or another status.
pub open spec fn success_body(e: EventView) -> Option<Seq<char>> {
    match e {
        EventView::Response { status, body } => if is_success(status) {
            Some(body)
        } else {
            None
        },
        EventView::Network(_) => None,
    }
}

/// A run that is done or failed stays as it is and asks for nothing, whatever
/// comes after.
pub proof fn lemma_finished_run_is_idle(h: HandshakeView, events: Seq<EventView>)
    requires
        !h.phase.is_waiting(),
    ensures
        run(h, events).0 == h,
        run(h, events).1.len() == events.len(),
        forall|i: int| 0 <= i < events.len() ==> #[trigger] run(h, events).1[i] is Idle,
    decreases events.len(),
{
    if events.len() > 0 {
        lemma_finished_run_is_idle(h, events.drop_first());
        let rest = run(h, events.drop_first()).1;
        assert forall|i: int| 0 <= i < events.len() implies #[trigger] run(h, events).1[i] is Idle by {
            if i > 0 {
                assert(run(h, events).1[i] == rest[i - 1]);
            }
        }
    }
}

/// Where every response is a success and carries the element that its step
/// looks for, a run goes from the start to the end: four requests, then
/// exactly one token to store, which is not empty.
pub proof fn lemma_complete_run(
    idp_url: Seq<char>,
    user: Seq<char>,
    password: Seq<char>,
    api: Seq<char>,
    random: Seq<char>,
    events: Seq<EventView>,
)
    requires
        random.len() >= 7,
        events.len() == 5,
        forall|i: int| 0 <= i < 5 ==> (#[trigger] success_body(events[i])) is Some,
        extract_spec(success_body(events[0])->Some_0, Target::Form, Attr::Action) is Ok,
        extract_spec(success_body(events[1])->Some_0, Target::Form, Attr::Action) is Ok,
        extract_spec(success_body(events[1])->Some_0, Target::Input, Attr::Value) is Ok,
        extract_spec(success_body(events[3])->Some_0, Target::AuthenticityToken, Attr::Value) is Ok,
        extract_spec(success_body(events[4])->Some_0, Target::CreatedToken, Attr::Value) is Ok,
    ensures
        ({
            let (last, actions) = run(start_spec(idp_url, user, password, api, random).0, events);
            &&& last.phase == Phase::Done
            &&& actions.len() == 5
            &&& forall|i: int| 0 <= i < 4 ==> #[trigger] actions[i] is Send
            &&& actions[4] is Persist
            &&& actions[4]->Persist_0.len() > 0
        }),
{
    let h0 = start_spec(idp_url, user, password, api, random).0;
    let e1 = events.drop_first();
    let e2 = e1.drop_first();
    let e3 = e2.drop_first();
    let e4 = e3.drop_first();
    let e5 = e4.drop_first();
    assert(success_body(events[0]) is Some);
    assert(success_body(events[1]) is Some && e1[0] == events[1]);
    assert(success_body(events[2]) is Some && e2[0] == events[2]);
    assert(success_body(events[3]) is Some && e3[0] == events[3]);
    assert(success_body(events[4]) is Some && e4[0] == events[4]);
    let s1 = step_spec(h0, events[0]);
    let s2 = step_spec(s1.0, e1[0]);
    let s3 = step_spec(s2.0, e2[0]);
    let s4 = step_spec(s3.0, e3[0]);
    let s5 = step_spec(s4.0, e4[0]);
    assert(s1.0.phase == Phase::AwaitLoginResult && s1.1 is Send);
    assert(s2.0.phase == Phase::AwaitReplay && s2.1 is Send);
    assert(s3.0.phase == Phase::AwaitTokenPage && s3.1 is Send);
    assert(s4.0.phase == Phase::AwaitCreatedToken && s4.1 is Send);
    assert(s5.0.phase == Phase::Done && s5.1 is Persist && s5.1->Persist_0.len() > 0);
    assert(e5.len() == 0);
    let r5 = run(s5.0, e5);
    assert(r5.0 == s5.0 && r5.1 =~= Seq::<ActionView>::empty());
    let r4 = run(s4.0, e4);
    assert(r4.0 == s5.0);
    assert(r4.1 =~= seq![s5.1]);
    let r3 = run(s3.0, e3);
    assert(r3.1 =~= seq![s4.1, s5.1]);
    let r2 = run(s2.0, e2);
    assert(r2.1 =~= seq![s3.1, s4.1, s5.1]);
    let r1 = run(s1.0, e1);
    assert(r1.1 =~= seq![s2.1, s3.1, s4.1, s5.1]);
    let r0 = run(h0, events);
    assert(r0.0 == s5.0);
    assert(r0.1 =~= seq![s1.1, s2.1, s3.1, s4.1, s5.1]);
}

/// A login page without a `form` element fails the run with a missing element,
/// and no token is ever handed over to be stored, whatever comes after.
pub proof fn lemma_missing_form_fails(
    h: HandshakeView,
    status: u16,
    body: Seq<char>,
    rest: Seq<EventView>,
)
    requires
        h.phase == Phase::AwaitLoginPage,
        is_success(status),
        first_attr(body, "form"@, "action"@) is None,
    ensures
        ({
            let (last, actions) = run(h, seq![EventView::Response { status, body }] + rest);
            &&& last.phase == Phase::Failed
            &&& actions[0] == ActionView::Fail(LoginErrorView::MissingElement(Target::Form))
            &&& forall|i: int| 0 <= i < actions.len() ==> !(#[trigger] actions[i] is Persist)
        }),
{
    let events = seq![EventView::Response { status, body }] + rest;
    assert(events.drop_first() =~= rest);
    let s1 = step_spec(h, events[0]);
    assert(s1.0.phase == Phase::Failed);
    lemma_finished_run_is_idle(s1.0, rest);
    let actions = run(h, events).1;
    assert forall|i: int| 0 <= i < actions.len() implies !(#[trigger] actions[i] is Persist) by {
        if i > 0 {
            assert(actions[i] == run(s1.0, rest).1[i - 1]);
        }
    }
}

/// A failed status on the login or the assertion replay fails the run with
/// that status and the request's URL, and no request follows.
pub proof fn lemma_failed_status_stops(
    h: HandshakeView,
    status: u16,
    body: Seq<char>,
    rest: Seq<EventView>,
)
    requires
        h.phase == Phase::AwaitLoginResult || h.phase == Phase::AwaitReplay,
        !is_success(status),
    ensures
        ({
            let (last, actions) = run(h, seq![EventView::Response { status, body }] + rest);
            &&& last.phase == Phase::Failed
            &&& actions[0] == ActionView::Fail(LoginErrorView::HttpStatus { status, url: h.pending })
            &&& forall|i: int| 1 <= i < actions.len() ==> #[trigger] actions[i] is Idle
        }),
{
    let events = seq![EventView::Response { status, body }] + rest;
    assert(events.drop_first() =~= rest);
    let s1 = step_spec(h, events[0]);
    lemma_finished_run_is_idle(s1.0, rest);
    let actions = run(h, events).1;
    assert forall|i: int| 1 <= i < actions.len() implies #[trigger] actions[i] is Idle by {
        assert(actions[i] == run(s1.0, rest).1[i - 1]);
    }
}

} // verus!

verus! {

/// Most redirect hops that one request follows.
pub const MAX_REDIRECTS: usize = 5;

/// Seconds that one request may take.
pub const TIMEOUT_SECS: u64 = 5;

/// How the HTTP session of a login run is set up.
#[derive(Clone, Copy, Debug, PartialEq, Eq, Structural)]
pub struct SessionConfig {
    pub timeout_secs: u64,
    pub max_redirects: usize,
    /// Whether cookies that responses set go along with later requests.
    pub cookie_store: bool,
}

impl SessionConfig {
    /// The session of a login run: a five-second timeout, at most five
    /// redirects, and a cookie store kept over the whole run.
    pub fn login_session() -> (r: SessionConfig)
        ensures
            r.timeout_secs == TIMEOUT_SECS,
            r.max_redirects == MAX_REDIRECTS,
            r.cookie_store,
    {
        SessionConfig { timeout_secs: TIMEOUT_SECS, max_redirects: MAX_REDIRECTS, cookie_store: true }
    }

    /// Whether a redirect is followed when `previous` URLs of the chain were
    /// requested already, the first one included.
    pub fn follows_redirect(&self, previous: usize) -> (r: bool)
        ensures
            r == (previous <= self.max_redirects),
    {
        previous <= self.max_redirects
    }
}

} // verus!
