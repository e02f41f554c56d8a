use vstd::prelude::*;
use vstd::string::*;
use crate::text::{contains, contains_seq, eq_str, trim, trimmed};

verus! {

/// The step of the login that an auth operation starts.
#[derive(Clone, Copy, Debug, PartialEq, Eq)]
pub enum AuthAction {
    Credentials,
    TwoFactor,
}

/// A second factor that the remote service accepts, each with its own verification call.
#[derive(Clone, Copy, Debug, PartialEq, Eq)]
pub enum TwoFactorMethod {
    Totp,
    EmailOtp,
    RecoveryCode,
}

/// The method that the wire name `n` stands for; any other name is refused.
pub open spec fn method_named(n: Seq<char>) -> Option<TwoFactorMethod> {
    if n == "totp"@ {
        Some(TwoFactorMethod::Totp)
    } else if n == "emailOtp"@ {
        Some(TwoFactorMethod::EmailOtp)
    } else if n == "otp"@ {
        Some(TwoFactorMethod::RecoveryCode)
    } else {
        None
    }
}

impl TwoFactorMethod {
    pub fn from_name(name: &str) -> (r: Option<TwoFactorMethod>)
        ensures
            r == method_named(name@),
    {
        if eq_str(name, "totp") {
            Some(TwoFactorMethod::Totp)
        } else if eq_str(name, "emailOtp") {
            Some(TwoFactorMethod::EmailOtp)
        } else if eq_str(name, "otp") {
            Some(TwoFactorMethod::RecoveryCode)
        } else {
            None
        }
    }
}

/// The signed-in user as the interface shows it.
#[derive(Clone, Debug)]
pub struct AuthUser {
    pub id: String,
    pub display_name: String,
    pub username: Option<String>,
}

/// What an auth operation reports to the interface.
#[derive(Clone, Debug)]
pub enum AuthEvent {
    Started { action: AuthAction },
    TwoFactorRequired { methods: Vec<String>, message: Option<String> },
    Success { user: AuthUser },
    Failure { message: String, code: Option<String> },
    LoggedOut,
}

pub enum EventModel {
    Started(AuthAction),
    TwoFactorRequired(Seq<String>, Option<Seq<char>>),
    Success(AuthUser),
    Failure(Seq<char>, Option<Seq<char>>),
    LoggedOut,
}

pub open spec fn opt_view(o: Option<String>) -> Option<Seq<char>> {
    match o {
        Some(s) => Some(s@),
        None => None,
    }
}

impl View for AuthEvent {
    type V = EventModel;

    open spec fn view(&self) -> EventModel {
        match self {
            AuthEvent::Started { action } => EventModel::Started(*action),
            AuthEvent::TwoFactorRequired { methods, message } => EventModel::TwoFactorRequired(
                methods@,
                opt_view(*message),
            ),
            AuthEvent::Success { user } => EventModel::Success(*user),
            AuthEvent::Failure { message, code } => EventModel::Failure(message@, opt_view(*code)),
            AuthEvent::LoggedOut => EventModel::LoggedOut,
        }
    }
}

/// A failed remote call: the upstream message, and the HTTP status code where there was one.
#[derive(Clone, Debug)]
pub struct ApiError {
    pub message: String,
    pub code: Option<String>,
}

/// What the remote "current user" probe answered.
#[derive(Clone, Debug)]
pub enum ProbeResult {
    CurrentUser(AuthUser),
    RequiresTwoFactor(Vec<String>),
    Error(ApiError),
}

pub enum ProbeModel {
    CurrentUser(AuthUser),
    RequiresTwoFactor(Seq<String>),
    Error(Seq<char>, Option<Seq<char>>),
}

impl View for ProbeResult {
    type V = ProbeModel;

    open spec fn view(&self) -> ProbeModel {
        match self {
            ProbeResult::CurrentUser(u) => ProbeModel::CurrentUser(*u),
            ProbeResult::RequiresTwoFactor(ms) => ProbeModel::RequiresTwoFactor(ms@),
            ProbeResult::Error(e) => ProbeModel::Error(e.message@, opt_view(e.code)),
        }
    }
}

/// The one login session of the process: the credentials of a login in flight, the
/// session cookie, and whether a second factor is awaited.
#[derive(Debug)]
pub struct AuthSession {
    pub credentials: Option<(String, String)>,
    pub cookie_header: Option<String>,
    pub pending_two_factor: bool,
}

pub struct SessionModel {
    pub credentials: Option<(Seq<char>, Seq<char>)>,
    pub cookie: Option<Seq<char>>,
    pub pending: bool,
}

impl View for AuthSession {
    type V = SessionModel;

    open spec fn view(&self) -> SessionModel {
        SessionModel {
            credentials: match self.credentials {
                Some((u, p)) => Some((u@, p@)),
                None => None,
            },
            cookie: opt_view(self.cookie_header),
            pending: self.pending_two_factor,
        }
    }
}

/// A session with nothing in it: no credentials, no cookie, no second factor awaited.
pub open spec fn clean_session() -> SessionModel {
    SessionModel { credentials: None, cookie: None, pending: false }
}

/// The session once a login has succeeded: the cookie stays, the rest is cleared.
pub open spec fn finalized(s: SessionModel) -> SessionModel {
    SessionModel { credentials: None, cookie: s.cookie, pending: false }
}

/// A call to the remote service that the caller is to make.
#[derive(Clone, Debug)]
pub enum AuthRequest {
    CurrentUser,
    Verify { method: TwoFactorMethod, code: String },
}

pub enum RequestModel {
    CurrentUser,
    Verify(TwoFactorMethod, Seq<char>),
}

impl View for AuthRequest {
    type V = RequestModel;

    open spec fn view(&self) -> RequestModel {
        match self {
            AuthRequest::CurrentUser => RequestModel::CurrentUser,
            AuthRequest::Verify { method, code } => RequestModel::Verify(*method, code@),
        }
    }
}

/// What follows an auth decision: an outcome to report, or a remote call to make; either
/// may be preceded by a `Started` event.
#[derive(Clone, Debug)]
pub enum AuthStep {
    Done { started: Option<AuthAction>, outcome: AuthEvent },
    Send { started: Option<AuthAction>, request: AuthRequest },
}

pub enum StepModel {
    Done(Option<AuthAction>, EventModel),
    Send(Option<AuthAction>, RequestModel),
}

impl View for AuthStep {
    type V = StepModel;

    open spec fn view(&self) -> StepModel {
        match self {
            AuthStep::Done { started, outcome } => StepModel::Done(*started, outcome@),
            AuthStep::Send { started, request } => StepModel::Send(*started, request@),
        }
    }
}

/// A failure that carries no status code.
fn failure(message: &str) -> (r: AuthEvent)
    ensures
        r@ == EventModel::Failure(message@, None),
{
    AuthEvent::Failure { message: String::from_str(message), code: None }
}

fn local_failure(message: &str) -> (r: AuthStep)
    ensures
        r@ == StepModel::Done(None, EventModel::Failure(message@, None)),
{
    AuthStep::Done { started: None, outcome: failure(message) }
}

pub open spec fn begin_login_spec(s: SessionModel, username: Seq<char>, password: Seq<char>) -> (
    SessionModel,
    StepModel,
) {
    if trimmed(username).len() == 0 || password.len() == 0 {
        (
            s,
            StepModel::Done(None, EventModel::Failure("Please enter your username and password."@, None)),
        )
    } else {
        (
            SessionModel {
                credentials: Some((trimmed(username), password)),
                cookie: None,
                pending: false,
            },
            StepModel::Send(Some(AuthAction::Credentials), RequestModel::CurrentUser),
        )
    }
}

pub open spec fn login_probe_spec(s: SessionModel, r: ProbeModel) -> (SessionModel, EventModel) {
    match r {
        ProbeModel::CurrentUser(u) => (finalized(s), EventModel::Success(u)),
        ProbeModel::RequiresTwoFactor(ms) => (
            SessionModel { pending: true, ..s },
            EventModel::TwoFactorRequired(ms, Some("Please enter your 2FA code"@)),
        ),
        ProbeModel::Error(m, c) => (SessionModel { credentials: None, ..s }, EventModel::Failure(m, c)),
    }
}

pub open spec fn verify_spec(s: SessionModel, code: Seq<char>, method: Seq<char>) -> StepModel {
    if trimmed(code).len() == 0 {
        StepModel::Done(None, EventModel::Failure("Please enter your 2FA code"@, None))
    } else if trimmed(method).len() == 0 {
        StepModel::Done(None, EventModel::Failure("Please select a 2FA method"@, None))
    } else if !s.pending {
        StepModel::Done(None, EventModel::Failure("2FA session not found. Please log in again"@, None))
    } else {
        match method_named(trimmed(method)) {
            Some(m) => StepModel::Send(
                Some(AuthAction::TwoFactor),
                RequestModel::Verify(m, trimmed(code)),
            ),
            None => StepModel::Done(
                Some(AuthAction::TwoFactor),
                EventModel::Failure("Unsupported 2FA method."@, None),
            ),
        }
    }
}

/// After a verification call: `error` is the message and code it failed with, if it failed.
pub open spec fn verified_spec(error: Option<(Seq<char>, Option<Seq<char>>)>) -> StepModel {
    match error {
        None => StepModel::Send(None, RequestModel::CurrentUser),
        Some((m, c)) => StepModel::Done(None, EventModel::Failure(m, c)),
    }
}

pub open spec fn two_factor_probe_spec(s: SessionModel, r: ProbeModel) -> (SessionModel, EventModel) {
    match r {
        ProbeModel::CurrentUser(u) => (finalized(s), EventModel::Success(u)),
        ProbeModel::RequiresTwoFactor(ms) => (
            SessionModel { pending: true, ..s },
            EventModel::TwoFactorRequired(ms, Some("Another 2FA method is required"@)),
        ),
        ProbeModel::Error(m, c) => (s, EventModel::Failure(m, c)),
    }
}

/// An error message that says the session is no longer accepted (HTTP 401 or 403).
pub open spec fn is_auth_error_spec(m: Seq<char>) -> bool {
    contains_seq(m, "HTTP 401"@) || contains_seq(m, "HTTP 403"@)
}

/// A failure that says the session is no longer accepted: by its status code or its message.
pub open spec fn is_auth_failure_spec(m: Seq<char>, code: Option<Seq<char>>) -> bool {
    code == Some("401"@) || code == Some("403"@) || is_auth_error_spec(m)
}

/// How a restored session ended.
#[derive(Clone, Debug)]
pub enum Restored {
    /// The cookie is still good: the user is signed in.
    Authenticated(AuthUser),
    /// The cookie was refused: the session is cleared and so must be the stored cookie.
    Invalidated,
    /// A transient error: the session is kept as it was.
    Unchanged,
}

pub open spec fn restore_spec(s: SessionModel, r: ProbeModel) -> (SessionModel, Restored) {
    match r {
        ProbeModel::CurrentUser(u) => (finalized(s), Restored::Authenticated(u)),
        ProbeModel::RequiresTwoFactor(_) => (clean_session(), Restored::Invalidated),
        ProbeModel::Error(m, c) => if is_auth_failure_spec(m, c) {
            (clean_session(), Restored::Invalidated)
        } else {
            (s, Restored::Unchanged)
        },
    }
}

pub fn is_auth_error(message: &str) -> (r: bool)
    ensures
        r == is_auth_error_spec(message@),
{
    contains(message, "HTTP 401") || contains(message, "HTTP 403")
}

pub fn is_auth_failure(error: &ApiError) -> (r: bool)
    ensures
        r == is_auth_failure_spec(error.message@, opt_view(error.code)),
{
    let by_code = match &error.code {
        Some(c) => eq_str(c.as_str(), "401") || eq_str(c.as_str(), "403"),
        None => false,
    };
    by_code || is_auth_error(error.message.as_str())
}

impl AuthSession {
    /// A session hydrated from a persisted cookie, if there is one.
    pub fn new(cookie_header: Option<String>) -> (r: AuthSession)
        ensures
            r@ == (SessionModel { credentials: None, cookie: opt_view(cookie_header), pending: false }),
    {
        AuthSession { credentials: None, cookie_header, pending_two_factor: false }
    }

    /// Records the cookie that the HTTP client holds now.
    pub fn set_cookie_header(&mut self, cookie_header: Option<String>)
        ensures
            final(self)@ == (SessionModel { cookie: opt_view(cookie_header), ..old(self)@ }),
    {
        self.cookie_header = cookie_header;
    }

    /// Clears everything: no credentials, no cookie, no second factor awaited.
    pub fn reset(&mut self)
        ensures
            final(self)@ == clean_session(),
    {
        *self = AuthSession { credentials: None, cookie_header: None, pending_two_factor: false };
    }
}

/// Submits credentials. Empty input is refused here, without any remote call; otherwise the
/// session starts afresh with the credentials, and the "current user" probe is to be sent.
pub fn begin_login(session: &mut AuthSession, username: &str, password: &str) -> (r: AuthStep)
    ensures
        (final(session)@, r@) == begin_login_spec(old(session)@, username@, password@),
{
    let user = trim(username);
    if user.unicode_len() == 0 || password.unicode_len() == 0 {
        return local_failure("Please enter your username and password.");
    }
    *session = AuthSession {
        credentials: Some((String::from_str(user), String::from_str(password))),
        cookie_header: None,
        pending_two_factor: false,
    };
    AuthStep::Send { started: Some(AuthAction::Credentials), request: AuthRequest::CurrentUser }
}

/// Ends a login: the second factor is no longer awaited and the credentials are dropped.
pub fn finalize(session: &mut AuthSession, user: AuthUser) -> (r: AuthEvent)
    ensures
        final(session)@ == finalized(old(session)@),
        r@ == EventModel::Success(user),
{
    session.pending_two_factor = false;
    session.credentials = None;
    AuthEvent::Success { user }
}

/// Takes in the answer to the probe that `begin_login` asked for.
pub fn login_probe_result(session: &mut AuthSession, result: ProbeResult) -> (r: AuthEvent)
    ensures
        (final(session)@, r@) == login_probe_spec(old(session)@, result@),
{
    match result {
        ProbeResult::CurrentUser(user) => finalize(session, user),
        ProbeResult::RequiresTwoFactor(methods) => {
            session.pending_two_factor = true;
            AuthEvent::TwoFactorRequired {
                methods,
                message: Some(String::from_str("Please enter your 2FA code")),
            }
        },
        ProbeResult::Error(e) => {
            session.credentials = None;
            AuthEvent::Failure { message: e.message, code: e.code }
        },
    }
}

/// Submits a second factor. Input is trimmed; empty input, or no login awaiting a second
/// factor, is refused without a remote call; otherwise the method's verification is to be sent.
pub fn verify_two_factor(session: &AuthSession, code: &str, method: &str) -> (r: AuthStep)
    ensures
        r@ == verify_spec(session@, code@, method@),
{
    let code = trim(code);
    let method = trim(method);
    if code.unicode_len() == 0 {
        return local_failure("Please enter your 2FA code");
    }
    if method.unicode_len() == 0 {
        return local_failure("Please select a 2FA method");
    }
    if !session.pending_two_factor {
        return local_failure("2FA session not found. Please log in again");
    }
    match TwoFactorMethod::from_name(method) {
        Some(m) => AuthStep::Send {
            started: Some(AuthAction::TwoFactor),
            request: AuthRequest::Verify { method: m, code: String::from_str(code) },
        },
        None => AuthStep::Done {
            started: Some(AuthAction::TwoFactor),
            outcome: failure("Unsupported 2FA method."),
        },
    }
}

pub open spec fn error_of(r: Result<(), ApiError>) -> Option<(Seq<char>, Option<Seq<char>>)> {
    match r {
        Ok(()) => None,
        Err(e) => Some((e.message@, opt_view(e.code))),
    }
}

/// Takes in the answer to a verification call: on success the user is probed again.
pub fn verification_result(result: Result<(), ApiError>) -> (r: AuthStep)
    ensures
        r@ == verified_spec(error_of(result)),
{
    match result {
        Ok(()) => AuthStep::Send { started: None, request: AuthRequest::CurrentUser },
        Err(e) => AuthStep::Done {
            started: None,
            outcome: AuthEvent::Failure { message: e.message, code: e.code },
        },
    }
}

/// Takes in the answer to the probe that follows a verified second factor.
pub fn two_factor_probe_result(session: &mut AuthSession, result: ProbeResult) -> (r: AuthEvent)
    ensures
        (final(session)@, r@) == two_factor_probe_spec(old(session)@, result@),
{
    match result {
        ProbeResult::CurrentUser(user) => finalize(session, user),
        ProbeResult::RequiresTwoFactor(methods) => {
            session.pending_two_factor = true;
            AuthEvent::TwoFactorRequired {
                methods,
                message: Some(String::from_str("Another 2FA method is required")),
            }
        },
        ProbeResult::Error(e) => AuthEvent::Failure { message: e.message, code: e.code },
    }
}

/// Whether a session can be restored: only a session with a cookie is probed.
pub fn restore_needs_probe(session: &AuthSession) -> (r: bool)
    ensures
        r == (session@.cookie is Some),
{
    session.cookie_header.is_some()
}

/// Takes in the answer to the probe of a restored session.
pub fn restore_result(session: &mut AuthSession, result: ProbeResult) -> (r: Restored)
    ensures
        (final(session)@, r) == restore_spec(old(session)@, result@),
{
    match result {
        ProbeResult::CurrentUser(user) => {
            session.pending_two_factor = false;
            session.credentials = None;
            Restored::Authenticated(user)
        },
        ProbeResult::RequiresTwoFactor(_) => {
            session.reset();
            Restored::Invalidated
        },
        ProbeResult::Error(e) => {
            if is_auth_failure(&e) {
                session.reset();
                Restored::Invalidated
            } else {
                Restored::Unchanged
            }
        },
    }
}

/// Signs out: the session is cleared, whatever it held.
pub fn logout(session: &mut AuthSession) -> (r: AuthEvent)
    ensures
        final(session)@ == clean_session(),
        r@ == EventModel::LoggedOut,
{
    session.reset();
    AuthEvent::LoggedOut
}

/// Empty credentials are refused locally: no remote call is asked for and the session is
/// left as it was.
pub proof fn empty_credentials_rejected(s: SessionModel, username: Seq<char>, password: Seq<char>)
    requires
        trimmed(username).len() == 0 || password.len() == 0,
    ensures
        begin_login_spec(s, username, password).0 == s,
        begin_login_spec(s, username, password).1 matches StepModel::Done(None, e) && e is Failure,
{
}

/// Once the primary login step has reported a success or a failure, no credentials are
/// stored; the one exception is a local refusal while an earlier login still held its own.
pub proof fn login_outcome_clears_credentials(
    s: SessionModel,
    username: Seq<char>,
    password: Seq<char>,
    r: ProbeModel,
)
    requires
        s.credentials is None || begin_login_spec(s, username, password).1 is Send,
    ensures
        begin_login_spec(s, username, password).1 is Done ==> begin_login_spec(
            s,
            username,
            password,
        ).0.credentials is None,
        begin_login_spec(s, username, password).1 is Send ==> ({
            let (s2, e) = login_probe_spec(begin_login_spec(s, username, password).0, r);
            (e is Success || e is Failure) ==> s2.credentials is None
        }),
{
}

/// Without a login awaiting a second factor, a well-formed verification is refused with
/// "2FA session not found" and no verification call is asked for.
pub proof fn verify_without_pending_login(s: SessionModel, code: Seq<char>, method: Seq<char>)
    requires
        !s.pending,
        trimmed(code).len() > 0,
        trimmed(method).len() > 0,
    ensures
        verify_spec(s, code, method) == StepModel::Done(
            None,
            EventModel::Failure("2FA session not found. Please log in again"@, None),
        ),
{
}

/// A chained challenge: the verification is sent and succeeds, the probe that follows asks
/// for a second factor again; the outcome is `TwoFactorRequired` and the login still awaits
/// a second factor.
pub proof fn chained_two_factor_challenge(
    s: SessionModel,
    code: Seq<char>,
    method: Seq<char>,
    methods: Seq<String>,
)
    requires
        s.pending,
        trimmed(code).len() > 0,
        method_named(trimmed(method)) is Some,
    ensures
        verify_spec(s, code, method) is Send,
        verified_spec(None) == StepModel::Send(None, RequestModel::CurrentUser),
        two_factor_probe_spec(s, ProbeModel::RequiresTwoFactor(methods)).0.pending,
        two_factor_probe_spec(s, ProbeModel::RequiresTwoFactor(methods)).1 is TwoFactorRequired,
{
    reveal_strlit("totp");
    reveal_strlit("emailOtp");
    reveal_strlit("otp");
}

} // verus!
