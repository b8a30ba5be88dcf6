//! The relay's answers: starting a flow, walking a callback through the
//! token and profile exchanges, and publishing the signing key.

use crate::error::OAuthError;
use crate::oauth::crypto::PublicKey;
use crate::oauth::flow::{consumed, verifies, Flow};
use crate::oauth::session::{Session, SessionValues};
use crate::oauth::settings::Settings;
use crate::oauth::text::{clone_text, contains, endpoint, join, join_strings, occurs_in};
use crate::oauth::{
    build_best_choice_response, build_force_auth_response, build_signin_response,
    build_signup_response, identity, initiates, token_grant, token_request_json, AccessResponse,
    OAuthRequest, OAuthResponse, PublicKeyResponse, TokenRequest, TokenResponse,
};
use vstd::prelude::*;
use vstd::string::StringExecFns;

verus! {

/// The status with which a malformed request is answered.
pub const BAD_REQUEST: u16 = 400;

/// The status of a profile answer that carries a profile, and the first of
/// the statuses that report success.
pub const SUCCESS: u16 = 200;

/// The last of the statuses that report success.
pub const LAST_SUCCESS: u16 = 299;

/// Whether `err` answers a request with the status for a malformed request.
pub open spec fn is_bad_request(err: OAuthError) -> bool {
    err matches OAuthError::HTTPError(status) && status == BAD_REQUEST
}

/// A request to start a flow for one given account.
pub struct ForceAuthRequest {
    pub email: String,
}

/// The page the browser came from, as the request names it.
pub struct Referer(pub String);

impl Referer {
    /// Reads the referer from the values of the request's `Referer` headers.
    ///
    /// Exactly one value must be given; anything else is answered with a bad
    /// request.
    pub fn from_headers(headers: &Vec<String>) -> (res: Result<Referer, OAuthError>)
        ensures
            match res {
                Ok(referer) => headers@.len() == 1 && referer.0 == headers@[0],
                Err(err) => headers@.len() != 1 && is_bad_request(err),
            },
    {
        if headers.len() != 1 {
            return Err(OAuthError::HTTPError(BAD_REQUEST));
        }
        Ok(Referer(headers[0].clone()))
    }

    /// Whether the flow was started from the embedded page, which is the case
    /// when the referer names `/iframe` anywhere.
    pub fn is_embedded(&self) -> (embedded: bool)
        ensures
            embedded == occurs_in("/iframe"@, self.0@),
    {
        contains(self.0.as_str(), "/iframe")
    }
}

/// Starts a sign-in flow.
pub fn login(settings: &Settings, flow: &mut Flow) -> (response: OAuthResponse)
    ensures
        initiates(response, *settings, old(flow)@, final(flow)@),
        response.action matches Some(action) && action@ == "signin"@,
        response.email is None,
{
    build_signin_response(settings, flow)
}

/// Starts a sign-up flow.
pub fn signup(settings: &Settings, flow: &mut Flow) -> (response: OAuthResponse)
    ensures
        initiates(response, *settings, old(flow)@, final(flow)@),
        response.action matches Some(action) && action@ == "signup"@,
        response.email is None,
{
    build_signup_response(settings, flow)
}

/// Starts a flow that leaves the choice of action to the identity provider.
pub fn best_choice(settings: &Settings, flow: &mut Flow) -> (response: OAuthResponse)
    ensures
        initiates(response, *settings, old(flow)@, final(flow)@),
        response.action is None,
        response.email is None,
{
    build_best_choice_response(settings, flow)
}

/// Starts a flow for the account that `req` names.
pub fn force_auth(req: ForceAuthRequest, settings: &Settings, flow: &mut Flow) -> (response: OAuthResponse)
    ensures
        initiates(response, *settings, old(flow)@, final(flow)@),
        response.action matches Some(action) && action@ == "force_auth"@,
        response.email == Some(req.email),
{
    build_force_auth_response(settings, flow, req.email)
}

/// The public key as the well-known endpoint publishes it: the key's own
/// fields, and `sig` as its use.
pub fn well_known(public_key: &PublicKey) -> (response: PublicKeyResponse)
    ensures
        response.kid == public_key.kid,
        response._use@ == "sig"@,
        response.kty == public_key.kty,
        response.n == public_key.n,
        response.e == public_key.e,
{
    PublicKeyResponse {
        kid: public_key.kid.clone(),
        _use: String::from_str("sig"),
        kty: public_key.kty.clone(),
        n: public_key.n.clone(),
        e: public_key.e.clone(),
    }
}

/// Where the handling of one callback stands.
#[derive(Clone, Copy, Debug, PartialEq, Eq, Structural)]
pub enum Progress {
    /// The callback has arrived and nothing was decided yet.
    Arrived,
    /// The token request is under way.
    AwaitingToken,
    /// The profile request is under way.
    AwaitingProfile,
    /// The callback was answered; nothing more happens.
    Finished,
}

/// What happened outside the library since the last step.
pub enum Event {
    /// The identity provider sent the browser back with this callback.
    Callback(OAuthRequest),
    /// The endpoint that was asked last answered with this status and body.
    Reply { status: u16, body: String },
    /// The endpoint that was asked last could not be reached; the text is the
    /// transport's message.
    TransportFailed(String),
}

/// What is to happen outside the library next.
pub enum Action {
    /// Post `body` to the token endpoint at `url` and hand back the reply.
    PostToken { url: String, body: String },
    /// Get the profile at `url` with `token` as bearer credential and hand
    /// back the reply.
    GetProfile { url: String, token: String },
    /// Answer the callback with a redirect to this target.
    Redirect(String),
    /// Answer the callback with this error.
    Fail(OAuthError),
}

/// How a callback is judged when it arrives.
#[derive(Clone, Copy, Debug, PartialEq, Eq, Structural)]
pub enum Verdict {
    /// The provider reported an error: the flow is given up, its nonce stays.
    Abandoned,
    /// The callback answers a pending flow of this very session.
    Verified,
    /// The callback does not verify, but the session is signed in already.
    Resubmitted,
    /// The callback does not verify and nobody is signed in.
    Rejected,
}

/// The verdict on a callback, given the pending nonces and the session. A
/// provider error decides first. Otherwise the callback verifies when it
/// carries a code and its state is both the nonce the session stored and a
/// pending nonce. A callback that does not verify is a harmless repetition
/// when the session has an identity, and is rejected when it has none.
pub open spec fn verdict(req: OAuthRequest, pending: Set<Seq<char>>, session: SessionValues) -> Verdict {
    if req.error is Some {
        Verdict::Abandoned
    } else if session.state matches Some(nonce) && verifies(pending, req.code, req.state@, nonce) {
        Verdict::Verified
    } else if session.email is Some {
        Verdict::Resubmitted
    } else {
        Verdict::Rejected
    }
}

/// Whether `action` redirects to `target`.
pub open spec fn redirects_to(action: Action, target: Seq<char>) -> bool {
    action matches Action::Redirect(to) && to@ == target
}

/// Whether `action` posts `body` to the token endpoint at `url`.
pub open spec fn posts_token(action: Action, url: Seq<char>, body: Seq<char>) -> bool {
    action matches Action::PostToken { url: to, body: sent } && to@ == url && sent@ == body
}

/// Whether `action` gets the profile at `url` with `token` as credential.
pub open spec fn gets_profile(action: Action, url: Seq<char>, token: Seq<char>) -> bool {
    action matches Action::GetProfile { url: to, token: bearer } && to@ == url && bearer@ == token
}

/// Whether `action` fails with a JSON error.
pub open spec fn fails_on_json(action: Action) -> bool {
    action matches Action::Fail(err) && err is JSONError
}

/// The address of the token endpoint.
pub open spec fn token_url(settings: Settings) -> Seq<char> {
    settings.oauth_uri@ + "/"@ + "token"@
}

/// The address of the profile endpoint.
pub open spec fn profile_url(settings: Settings) -> Seq<char> {
    settings.profile_uri@ + "/"@ + "profile"@
}

/// What the arrival of a callback leads to.
///
/// An abandoned flow redirects to the incomplete landing page, a repeated
/// callback to the default landing page, and a rejected one fails as a bad
/// request; in all three the registry and the session stay as they are. A
/// verified callback consumes its nonce, makes the session forget it, and
/// posts the token request, made of its code and the client's credentials,
/// to the token endpoint.
pub open spec fn callback_step(
    req: OAuthRequest,
    settings: Settings,
    pending_before: Set<Seq<char>>,
    pending_after: Set<Seq<char>>,
    session_before: SessionValues,
    session_after: SessionValues,
    progress: Progress,
    action: Action,
) -> bool {
    match verdict(req, pending_before, session_before) {
        Verdict::Abandoned => {
            &&& pending_after == pending_before
            &&& session_after == session_before
            &&& progress == Progress::Finished
            &&& redirects_to(action, "/?oauth_incomplete=true"@)
        },
        Verdict::Verified => {
            &&& pending_after == consumed(pending_before, req.state@)
            &&& session_after == (SessionValues { state: None, ..session_before })
            &&& req.code matches Some(code)
            &&& progress == Progress::AwaitingToken
            &&& posts_token(
                action,
                token_url(settings),
                token_request_json(code@, settings.client_id@, settings.client_secret@),
            )
        },
        Verdict::Resubmitted => {
            &&& pending_after == pending_before
            &&& session_after == session_before
            &&& progress == Progress::Finished
            &&& redirects_to(action, "/"@)
        },
        Verdict::Rejected => {
            &&& pending_after == pending_before
            &&& session_after == session_before
            &&& progress == Progress::Finished
            &&& action matches Action::Fail(err)
            &&& is_bad_request(err)
        },
    }
}

/// Whether `status` reports success: any status from 200 to 299.
pub open spec fn is_success(status: u16) -> bool {
    200 <= status <= 299
}

/// Whether `action` fails as an upstream error that carries `body` as it
/// came.
pub open spec fn fails_upstream(action: Action, body: Seq<char>) -> bool {
    action matches Action::Fail(OAuthError::UnknownError(text)) && text@ == body
}

/// What the reply of the token endpoint leads to.
///
/// A reply that reports success and whose body says a token response binds
/// the scopes, joined by single spaces, the token type and the token to the
/// session, and asks for the profile with the token as credential. A reply
/// that reports success with any other body fails with a JSON error. A
/// reply with any other status fails with an unknown error that carries the
/// body as it came. Both failures leave the session as it is.
pub open spec fn token_step(
    status: u16,
    body: Seq<char>,
    settings: Settings,
    session_before: SessionValues,
    session_after: SessionValues,
    progress: Progress,
    action: Action,
) -> bool {
    if is_success(status) {
        match token_grant(body) {
            Some(grant) => {
                &&& session_after == (SessionValues {
                    scopes: Some(join(grant.scopes, " "@)),
                    token_type: Some(grant.token_type),
                    token: Some(grant.access_token),
                    ..session_before
                })
                &&& progress == Progress::AwaitingProfile
                &&& gets_profile(action, profile_url(settings), grant.access_token)
            },
            None => {
                &&& session_after == session_before
                &&& progress == Progress::Finished
                &&& fails_on_json(action)
            },
        }
    } else {
        &&& session_after == session_before
        &&& progress == Progress::Finished
        &&& fails_upstream(action, body)
    }
}

/// Where a completed flow sends the browser: back to the embedded page when
/// it started there, else to the default landing page.
pub open spec fn landing(embedded: bool) -> Seq<char> {
    if embedded {
        "/iframe"@
    } else {
        "/"@
    }
}

/// What the reply of the profile endpoint leads to; it always ends the
/// handling of the callback.
///
/// A reply with status 200 whose body says a profile binds the email and the
/// user identifier to the session and redirects to the landing page. A reply
/// with status 200 and any other body fails with a JSON error. A reply with
/// any other status fails with an unknown error that carries the body as it
/// came. Both failures leave the session as it is.
pub open spec fn profile_step(
    status: u16,
    body: Seq<char>,
    embedded: bool,
    session_before: SessionValues,
    session_after: SessionValues,
    progress: Progress,
    action: Action,
) -> bool {
    &&& progress == Progress::Finished
    &&& if status == SUCCESS {
        match identity(body) {
            Some(user) => {
                &&& session_after == (SessionValues {
                    email: Some(user.email),
                    uid: Some(user.uid),
                    ..session_before
                })
                &&& redirects_to(action, landing(embedded))
            },
            None => session_after == session_before && fails_on_json(action),
        }
    } else {
        &&& session_after == session_before
        &&& fails_upstream(action, body)
    }
}

/// A copy of a callback.
fn copy_request(req: &OAuthRequest) -> (copy: OAuthRequest)
    ensures
        copy == *req,
{
    OAuthRequest {
        state: req.state.clone(),
        code: clone_text(&req.code),
        error: clone_text(&req.error),
    }
}

/// Judges a callback. Nothing changes.
pub fn judge(req: &OAuthRequest, flow: &Flow, session: &Session) -> (judged: Verdict)
    ensures
        judged == verdict(*req, flow@, session@),
{
    if req.error.is_some() {
        return Verdict::Abandoned;
    }
    let verified = match &session.state {
        Some(nonce) => flow.verify(copy_request(req), nonce.clone()),
        None => false,
    };
    if verified {
        Verdict::Verified
    } else if session.has_identity() {
        Verdict::Resubmitted
    } else {
        Verdict::Rejected
    }
}

/// Takes a callback in: judges it and acts on the verdict.
///
/// A callback that carries a provider error never touches the registry. A
/// callback whose state is not pending, on a session without an identity and
/// without a provider error, fails as a bad request.
pub fn receive_callback(req: &OAuthRequest, settings: &Settings, flow: &mut Flow, session: &mut Session) -> (res: (Progress, Action))
    ensures
        callback_step(
            *req,
            *settings,
            old(flow)@,
            final(flow)@,
            old(session)@,
            final(session)@,
            res.0,
            res.1,
        ),
        req.error is Some ==> final(flow)@ == old(flow)@ && redirects_to(
            res.1,
            "/?oauth_incomplete=true"@,
        ),
        req.error is None && !old(flow)@.contains(req.state@) && old(session).email is None ==> (
        res.1 matches Action::Fail(err) && is_bad_request(err)),
{
    match judge(req, flow, session) {
        Verdict::Abandoned => (
            Progress::Finished,
            Action::Redirect(String::from_str("/?oauth_incomplete=true")),
        ),
        Verdict::Verified => {
            flow.remove(req.state.clone());
            session.remove_state();
            let code = req.code.as_ref().unwrap().clone();
            let request = TokenRequest::new(settings, code);
            match request.encode() {
                Ok(body) => (
                    Progress::AwaitingToken,
                    Action::PostToken { url: endpoint(settings.oauth_uri.as_str(), "token"), body },
                ),
                Err(err) => (Progress::Finished, Action::Fail(err)),
            }
        },
        Verdict::Resubmitted => (Progress::Finished, Action::Redirect(String::from_str("/"))),
        Verdict::Rejected => (
            Progress::Finished,
            Action::Fail(OAuthError::HTTPError(BAD_REQUEST)),
        ),
    }
}

/// Accepts a token response: binds the scopes, joined by single spaces, the
/// token type and the token to the session, and asks for the profile with
/// the token as credential.
pub fn accept_token(response: TokenResponse, settings: &Settings, session: &mut Session) -> (res: (Progress, Action))
    ensures
        final(session)@ == (SessionValues {
            scopes: Some(join(response@.scopes, " "@)),
            token_type: Some(response@.token_type),
            token: Some(response@.access_token),
            ..old(session)@
        }),
        res.0 == Progress::AwaitingProfile,
        gets_profile(res.1, profile_url(*settings), response@.access_token),
{
    session.set_scopes(join_strings(&response.scopes, " "));
    session.set_token_type(response.token_type.clone());
    session.set_token(response.access_token.clone());
    (
        Progress::AwaitingProfile,
        Action::GetProfile {
            url: endpoint(settings.profile_uri.as_str(), "profile"),
            token: response.access_token,
        },
    )
}

/// Takes the reply of the token endpoint in.
pub fn receive_token(status: u16, body: String, settings: &Settings, session: &mut Session) -> (res: (Progress, Action))
    ensures
        token_step(status, body@, *settings, old(session)@, final(session)@, res.0, res.1),
{
    if status < SUCCESS || status > LAST_SUCCESS {
        return (Progress::Finished, Action::Fail(OAuthError::UnknownError(body)));
    }
    match TokenResponse::decode(body.as_str()) {
        Ok(response) => accept_token(response, settings, session),
        Err(err) => (Progress::Finished, Action::Fail(err)),
    }
}

/// Accepts a profile: binds the email and the user identifier to the session
/// and redirects to the landing page of the flow.
pub fn accept_profile(profile: AccessResponse, referer: &Referer, session: &mut Session) -> (res: (Progress, Action))
    ensures
        final(session)@ == (SessionValues {
            email: Some(profile@.email),
            uid: Some(profile@.uid),
            ..old(session)@
        }),
        res.0 == Progress::Finished,
        redirects_to(res.1, landing(occurs_in("/iframe"@, referer.0@))),
{
    session.set_identity(profile.email, profile.uid);
    let target = if referer.is_embedded() {
        String::from_str("/iframe")
    } else {
        String::from_str("/")
    };
    (Progress::Finished, Action::Redirect(target))
}

/// Takes the reply of the profile endpoint in.
pub fn receive_profile(status: u16, body: String, referer: &Referer, session: &mut Session) -> (res: (Progress, Action))
    ensures
        profile_step(
            status,
            body@,
            occurs_in("/iframe"@, referer.0@),
            old(session)@,
            final(session)@,
            res.0,
            res.1,
        ),
{
    if status != SUCCESS {
        return (Progress::Finished, Action::Fail(OAuthError::UnknownError(body)));
    }
    match AccessResponse::decode(body.as_str()) {
        Ok(profile) => accept_profile(profile, referer, session),
        Err(err) => (Progress::Finished, Action::Fail(err)),
    }
}

/// Whether `action` fails because the transport did, with its message.
pub open spec fn fails_on_transport(action: Action, message: Seq<char>) -> bool {
    action matches Action::Fail(OAuthError::HTTPClientError(text)) && text@ == message
}

/// One step of the handling of a callback: what `event` leads to when the
/// handling stands at `progress`.
///
/// The callback itself is taken in first; then the reply of the token
/// endpoint, then the reply of the profile endpoint. A transport failure
/// while a reply is awaited ends the handling with the transport's message.
/// Only the arrival of the callback can change the registry. An event that
/// the handling does not wait for, and any event after the handling has
/// finished, changes nothing and ends in an unknown error.
pub open spec fn step(
    progress: Progress,
    event: Event,
    embedded: bool,
    settings: Settings,
    pending_before: Set<Seq<char>>,
    pending_after: Set<Seq<char>>,
    session_before: SessionValues,
    session_after: SessionValues,
    next: Progress,
    action: Action,
) -> bool {
    match (progress, event) {
        (Progress::Arrived, Event::Callback(req)) => callback_step(
            req,
            settings,
            pending_before,
            pending_after,
            session_before,
            session_after,
            next,
            action,
        ),
        (Progress::AwaitingToken, Event::Reply { status, body }) => {
            &&& pending_after == pending_before
            &&& token_step(status, body@, settings, session_before, session_after, next, action)
        },
        (Progress::AwaitingProfile, Event::Reply { status, body }) => {
            &&& pending_after == pending_before
            &&& profile_step(status, body@, embedded, session_before, session_after, next, action)
        },
        (Progress::AwaitingToken, Event::TransportFailed(message)) => {
            &&& pending_after == pending_before
            &&& session_after == session_before
            &&& next == Progress::Finished
            &&& fails_on_transport(action, message@)
        },
        (Progress::AwaitingProfile, Event::TransportFailed(message)) => {
            &&& pending_after == pending_before
            &&& session_after == session_before
            &&& next == Progress::Finished
            &&& fails_on_transport(action, message@)
        },
        _ => {
            &&& pending_after == pending_before
            &&& session_after == session_before
            &&& next == Progress::Finished
            &&& action matches Action::Fail(err)
            &&& err is UnknownError
        },
    }
}

/// Handles a callback, one step at a time. The caller starts at
/// `Progress::Arrived` with the callback as event, performs the action that
/// comes back, and hands in what happened as the next event, until the
/// action is a redirect or a failure.
pub fn oauth(
    progress: Progress,
    event: Event,
    referer: &Referer,
    settings: &Settings,
    flow: &mut Flow,
    session: &mut Session,
) -> (res: (Progress, Action))
    ensures
        step(
            progress,
            event,
            occurs_in("/iframe"@, referer.0@),
            *settings,
            old(flow)@,
            final(flow)@,
            old(session)@,
            final(session)@,
            res.0,
            res.1,
        ),
{
    match (progress, event) {
        (Progress::Arrived, Event::Callback(req)) => receive_callback(
            &req,
            settings,
            flow,
            session,
        ),
        (Progress::AwaitingToken, Event::Reply { status, body }) => receive_token(
            status,
            body,
            settings,
            session,
        ),
        (Progress::AwaitingProfile, Event::Reply { status, body }) => receive_profile(
            status,
            body,
            referer,
            session,
        ),
        (Progress::AwaitingToken, Event::TransportFailed(message)) => (
            Progress::Finished,
            Action::Fail(OAuthError::HTTPClientError(message)),
        ),
        (Progress::AwaitingProfile, Event::TransportFailed(message)) => (
            Progress::Finished,
            Action::Fail(OAuthError::HTTPClientError(message)),
        ),
        _ => (
            Progress::Finished,
            Action::Fail(OAuthError::UnknownError(String::from_str("unexpected event"))),
        ),
    }
}

/// A callback whose state is not pending, on a session without an identity,
/// is rejected. A callback that carries a provider error is left out: it is
/// abandoned before its state is looked at.
pub proof fn lemma_unknown_state_is_rejected(
    req: OAuthRequest,
    pending: Set<Seq<char>>,
    session: SessionValues,
)
    requires
        req.error is None,
        !pending.contains(req.state@),
        session.email is None,
    ensures
        verdict(req, pending, session) == Verdict::Rejected,
{
}

/// A callback that carries a provider error is abandoned, whatever else it
/// carries and whatever the registry and the session hold.
pub proof fn lemma_provider_error_abandons(
    req: OAuthRequest,
    pending: Set<Seq<char>>,
    session: SessionValues,
)
    requires
        req.error is Some,
    ensures
        verdict(req, pending, session) == Verdict::Abandoned,
{
}

/// A callback whose state is not pending, on a session without an identity,
/// is answered as a bad request, and nothing changes. A callback that carries
/// a provider error is left out: it is abandoned before its state is looked
/// at.
pub proof fn lemma_unknown_state_is_bad_request(
    req: OAuthRequest,
    settings: Settings,
    pending_before: Set<Seq<char>>,
    pending_after: Set<Seq<char>>,
    session_before: SessionValues,
    session_after: SessionValues,
    next: Progress,
    action: Action,
)
    requires
        callback_step(
            req,
            settings,
            pending_before,
            pending_after,
            session_before,
            session_after,
            next,
            action,
        ),
        req.error is None,
        !pending_before.contains(req.state@),
        session_before.email is None,
    ensures
        verdict(req, pending_before, session_before) == Verdict::Rejected,
        action matches Action::Fail(err) && is_bad_request(err),
        next == Progress::Finished,
        pending_after == pending_before,
        session_after == session_before,
{
}

/// A bad request is answered with status 400, which is a fault of the
/// client and not one of the server.
pub proof fn lemma_bad_request_is_a_client_error(err: OAuthError)
    requires
        is_bad_request(err),
    ensures
        crate::error::status_of(err) == 400,
        crate::error::body_of(err) is None,
{
}

/// A callback that carries a provider error never consumes a nonce: every
/// nonce that was pending before is pending afterwards, the one the callback
/// names among them, and the browser is sent to the incomplete landing page.
pub proof fn lemma_provider_error_keeps_nonce(
    req: OAuthRequest,
    settings: Settings,
    pending_before: Set<Seq<char>>,
    pending_after: Set<Seq<char>>,
    session_before: SessionValues,
    session_after: SessionValues,
    next: Progress,
    action: Action,
)
    requires
        callback_step(
            req,
            settings,
            pending_before,
            pending_after,
            session_before,
            session_after,
            next,
            action,
        ),
        req.error is Some,
    ensures
        verdict(req, pending_before, session_before) == Verdict::Abandoned,
        pending_after == pending_before,
        pending_before.contains(req.state@) ==> pending_after.contains(req.state@),
        session_after == session_before,
        next == Progress::Finished,
        redirects_to(action, "/?oauth_incomplete=true"@),
{
}

/// A nonce verifies once: after a verified callback the same callback, on
/// whatever the session holds by then, does not verify again.
pub proof fn lemma_verified_only_once(
    req: OAuthRequest,
    settings: Settings,
    pending_before: Set<Seq<char>>,
    pending_after: Set<Seq<char>>,
    session_before: SessionValues,
    session_after: SessionValues,
    next: Progress,
    action: Action,
    later: SessionValues,
)
    requires
        callback_step(
            req,
            settings,
            pending_before,
            pending_after,
            session_before,
            session_after,
            next,
            action,
        ),
        verdict(req, pending_before, session_before) == Verdict::Verified,
    ensures
        !pending_after.contains(req.state@),
        session_after.state is None,
        verdict(req, pending_after, later) != Verdict::Verified,
{
}

/// The handling of a callback ends for good: once it has finished, every
/// further event leaves the registry and the session as they are and the
/// handling finished.
pub proof fn lemma_finished_is_final(
    event: Event,
    embedded: bool,
    settings: Settings,
    pending_before: Set<Seq<char>>,
    pending_after: Set<Seq<char>>,
    session_before: SessionValues,
    session_after: SessionValues,
    next: Progress,
    action: Action,
)
    requires
        step(
            Progress::Finished,
            event,
            embedded,
            settings,
            pending_before,
            pending_after,
            session_before,
            session_after,
            next,
            action,
        ),
    ensures
        next == Progress::Finished,
        pending_after == pending_before,
        session_after == session_before,
        action is Fail,
{
}

/// Only the arrival of a callback can change the registry: whatever happens
/// while a reply is awaited, or afterwards, every pending nonce stays pending
/// and none is added.
pub proof fn lemma_registry_changes_on_arrival_only(
    progress: Progress,
    event: Event,
    embedded: bool,
    settings: Settings,
    pending_before: Set<Seq<char>>,
    pending_after: Set<Seq<char>>,
    session_before: SessionValues,
    session_after: SessionValues,
    next: Progress,
    action: Action,
)
    requires
        step(
            progress,
            event,
            embedded,
            settings,
            pending_before,
            pending_after,
            session_before,
            session_after,
            next,
            action,
        ),
        progress != Progress::Arrived,
    ensures
        pending_after == pending_before,
{
}

/// A request to a remote endpoint is only ever asked for after the nonce of
/// the flow was consumed: the step that posts the token request is the step
/// that removes the nonce, and the step that asks for the profile leaves the
/// registry as it is.
pub proof fn lemma_nonce_is_consumed_before_requests(
    progress: Progress,
    event: Event,
    embedded: bool,
    settings: Settings,
    pending_before: Set<Seq<char>>,
    pending_after: Set<Seq<char>>,
    session_before: SessionValues,
    session_after: SessionValues,
    next: Progress,
    action: Action,
)
    requires
        step(
            progress,
            event,
            embedded,
            settings,
            pending_before,
            pending_after,
            session_before,
            session_after,
            next,
            action,
        ),
    ensures
        action is PostToken ==> (event matches Event::Callback(req) && !pending_after.contains(
            req.state@,
        ) && progress == Progress::Arrived && next == Progress::AwaitingToken),
        action is GetProfile ==> progress == Progress::AwaitingToken && next
            == Progress::AwaitingProfile && pending_after == pending_before,
        (action is Redirect || action is Fail) <==> next == Progress::Finished,
{
}

} // verus!
