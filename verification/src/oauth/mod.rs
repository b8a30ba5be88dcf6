//! The sign-in flow: its configuration, its registry of pending states, the
//! records exchanged with the identity provider, and the key material.

pub mod crypto;
pub mod encoding;
pub mod flow;
pub mod json;
pub mod session;
pub mod settings;
pub mod text;

use self::flow::{is_nonce, issued, Flow};
use self::json::{
    json_literal, json_members, literal, member_text, member_texts, read_members, text_member,
    texts_member,
};
use self::settings::Settings;
use self::text::{clone_strings, clone_text, entries_view, texts};
use crate::error::OAuthError;
use vstd::prelude::*;
use vstd::string::StringExecFns;

verus! {

/// What the identity provider sends back to the relay: the state it was given
/// and either an authorization code or an error.
#[derive(Clone)]
pub struct OAuthRequest {
    pub state: String,
    pub code: Option<String>,
    pub error: Option<String>,
}

/// What a caller needs to start a flow at the identity provider.
pub struct OAuthResponse {
    pub state: String,
    pub action: Option<String>,
    pub client_id: String,
    pub email: Option<String>,
    pub scope: Option<Vec<String>>,
    pub redirect_uri: String,
    pub oauth_uri: String,
    pub content_uri: String,
}

/// The body of the request that trades an authorization code for a token.
pub struct TokenRequest {
    pub code: String,
    pub client_id: String,
    pub client_secret: String,
}

/// The identity provider's answer to a token request.
pub struct TokenResponse {
    pub scopes: Vec<String>,
    pub token_type: String,
    pub access_token: String,
}

/// The profile of the user who signed in.
pub struct AccessResponse {
    pub uid: String,
    pub email: String,
}

/// The public signing key as the well-known endpoint publishes it.
pub struct PublicKeyResponse {
    pub kid: String,
    pub _use: String,
    pub kty: String,
    pub n: String,
    pub e: String,
}

/// What every freshly built response holds, whatever its action: a nonce that
/// was just issued, the configured client and addresses, and nothing else.
pub open spec fn initiates(
    response: OAuthResponse,
    settings: Settings,
    before: Set<Seq<char>>,
    after: Set<Seq<char>>,
) -> bool {
    &&& is_nonce(response.state@)
    &&& after == issued(before, response.state@)
    &&& response.client_id@ == settings.client_id@
    &&& response.redirect_uri@ == settings.redirect_uri@
    &&& response.oauth_uri@ == settings.oauth_uri@
    &&& response.content_uri@ == settings.content_uri@
    &&& response.scope is None
}

impl OAuthResponse {
    /// Starts a flow: issues a fresh nonce and echoes the client
    /// configuration. No action, email hint or scope is set.
    pub fn new(settings: &Settings, flow: &mut Flow) -> (response: OAuthResponse)
        ensures
            initiates(response, *settings, old(flow)@, final(flow)@),
            response.action is None,
            response.email is None,
    {
        let nonce = flow.generate_persistent_nonce();
        OAuthResponse {
            state: nonce,
            action: None,
            client_id: settings.client_id.clone(),
            email: None,
            scope: None,
            redirect_uri: settings.redirect_uri.clone(),
            oauth_uri: settings.oauth_uri.clone(),
            content_uri: settings.content_uri.clone(),
        }
    }

    /// The nonce of the flow.
    #[inline]
    pub fn state(&self) -> (state: String)
        ensures
            state == self.state,
    {
        self.state.clone()
    }

    /// The requested action, if one was set.
    #[inline]
    pub fn action(&self) -> (action: Option<String>)
        ensures
            action == self.action,
    {
        clone_text(&self.action)
    }

    /// The email hint, if one was set.
    #[inline]
    pub fn email(&self) -> (email: Option<String>)
        ensures
            email == self.email,
    {
        clone_text(&self.email)
    }

    /// The requested scopes, if any were set.
    #[inline]
    pub fn scope(&self) -> (scope: Option<Vec<String>>)
        ensures
            match (scope, self.scope) {
                (Some(copy), Some(scopes)) => copy@ == scopes@,
                (None, None) => true,
                _ => false,
            },
    {
        match &self.scope {
            Some(scopes) => Some(clone_strings(scopes)),
            None => None,
        }
    }

    /// The same response with `action` as its action.
    #[inline]
    pub fn set_action(self, action: String) -> (response: OAuthResponse)
        ensures
            response == (OAuthResponse { action: Some(action), ..self }),
    {
        let mut response = self;
        response.action = Some(action);
        response
    }

    /// The same response with `email` as its email hint.
    #[inline]
    pub fn set_email(self, email: String) -> (response: OAuthResponse)
        ensures
            response == (OAuthResponse { email: Some(email), ..self }),
    {
        let mut response = self;
        response.email = Some(email);
        response
    }

    /// The same response with `scope` as its scopes.
    #[inline]
    pub fn set_scope(self, scope: Vec<String>) -> (response: OAuthResponse)
        ensures
            response == (OAuthResponse { scope: Some(scope), ..self }),
    {
        let mut response = self;
        response.scope = Some(scope);
        response
    }
}

/// A token request document: one object with the members `code`,
/// `client_id` and `client_secret`, in that order, each with the given JSON
/// text as its value.
pub open spec fn token_request_layout(
    code: Seq<char>,
    client_id: Seq<char>,
    client_secret: Seq<char>,
) -> Seq<char> {
    "{\"code\":"@ + code + ",\"client_id\":"@ + client_id + ",\"client_secret\":"@
        + client_secret + "}"@
}

/// A token request as JSON: the token request document in which every value
/// is a JSON string.
pub open spec fn token_request_json(
    code: Seq<char>,
    client_id: Seq<char>,
    client_secret: Seq<char>,
) -> Seq<char> {
    token_request_layout(json_literal(code), json_literal(client_id), json_literal(client_secret))
}

impl TokenRequest {
    /// The request that trades `code` for a token in the name of the
    /// configured client.
    pub fn new(settings: &Settings, code: String) -> (request: TokenRequest)
        ensures
            request.code == code,
            request.client_id == settings.client_id,
            request.client_secret == settings.client_secret,
    {
        TokenRequest {
            code,
            client_id: settings.client_id.clone(),
            client_secret: settings.client_secret.clone(),
        }
    }

    /// Lays a token request document out from the JSON texts of its three
    /// values.
    pub fn layout(code: &str, client_id: &str, client_secret: &str) -> (text: String)
        ensures
            text@ == token_request_layout(code@, client_id@, client_secret@),
    {
        let mut text = String::from_str("{\"code\":");
        text.append(code);
        text.append(",\"client_id\":");
        text.append(client_id);
        text.append(",\"client_secret\":");
        text.append(client_secret);
        text.append("}");
        text
    }

    /// The request as JSON. Every request can be written, so this succeeds
    /// on every input.
    pub fn encode(&self) -> (res: Result<String, OAuthError>)
        ensures
            res matches Ok(text) && text@ == token_request_json(
                self.code@,
                self.client_id@,
                self.client_secret@,
            ),
    {
        let code = literal(self.code.as_str())?;
        let client_id = literal(self.client_id.as_str())?;
        let client_secret = literal(self.client_secret.as_str())?;
        Ok(TokenRequest::layout(code.as_str(), client_id.as_str(), client_secret.as_str()))
    }
}

/// What a token response says.
pub struct TokenGrant {
    pub scopes: Seq<Seq<char>>,
    pub token_type: Seq<char>,
    pub access_token: Seq<char>,
}

impl View for TokenResponse {
    type V = TokenGrant;

    open spec fn view(&self) -> TokenGrant {
        TokenGrant {
            scopes: texts(self.scopes@),
            token_type: self.token_type@,
            access_token: self.access_token@,
        }
    }
}

/// What `document` says as a token response: it must be a JSON object with a
/// list of texts called `scopes` and texts called `token_type` and
/// `access_token`. Other members are ignored.
pub open spec fn token_grant(document: Seq<char>) -> Option<TokenGrant> {
    match json_members(document) {
        Some(members) => match (
            member_texts(members, "scopes"@),
            member_text(members, "token_type"@),
            member_text(members, "access_token"@),
        ) {
            (Some(scopes), Some(token_type), Some(access_token)) => Some(
                TokenGrant { scopes, token_type, access_token },
            ),
            _ => None,
        },
        None => None,
    }
}

impl TokenResponse {
    /// Picks a token response out of the members of a JSON object.
    pub fn from_members(members: &Vec<(String, String)>) -> (res: Result<TokenResponse, OAuthError>)
        ensures
            match res {
                Ok(response) => {
                    &&& member_texts(entries_view(members@), "scopes"@) == Some(
                        response@.scopes,
                    )
                    &&& member_text(entries_view(members@), "token_type"@) == Some(
                        response@.token_type,
                    )
                    &&& member_text(entries_view(members@), "access_token"@) == Some(
                        response@.access_token,
                    )
                },
                Err(err) => {
                    &&& err is JSONError
                    &&& (member_texts(entries_view(members@), "scopes"@) is None
                        || member_text(entries_view(members@), "token_type"@) is None
                        || member_text(entries_view(members@), "access_token"@) is None)
                },
            },
    {
        let scopes = match texts_member(members, "scopes") {
            Ok(scopes) => scopes,
            Err(err) => { return Err(err); },
        };
        let token_type = match text_member(members, "token_type") {
            Ok(text) => text,
            Err(err) => { return Err(err); },
        };
        let access_token = match text_member(members, "access_token") {
            Ok(text) => text,
            Err(err) => { return Err(err); },
        };
        Ok(TokenResponse { scopes, token_type, access_token })
    }

    /// Reads a token response from the body of the provider's answer.
    ///
    /// Succeeds exactly when the body says one; every failure is a JSON error.
    pub fn decode(document: &str) -> (res: Result<TokenResponse, OAuthError>)
        ensures
            match res {
                Ok(response) => token_grant(document@) == Some(response@),
                Err(err) => err is JSONError && token_grant(document@) is None,
            },
    {
        let members = read_members(document)?;
        TokenResponse::from_members(&members)
    }
}

/// What a profile says.
pub struct Identity {
    pub uid: Seq<char>,
    pub email: Seq<char>,
}

impl View for AccessResponse {
    type V = Identity;

    open spec fn view(&self) -> Identity {
        Identity { uid: self.uid@, email: self.email@ }
    }
}

/// What `document` says as a profile: it must be a JSON object with texts
/// called `uid` and `email`. Other members are ignored.
pub open spec fn identity(document: Seq<char>) -> Option<Identity> {
    match json_members(document) {
        Some(members) => match (member_text(members, "uid"@), member_text(members, "email"@)) {
            (Some(uid), Some(email)) => Some(Identity { uid, email }),
            _ => None,
        },
        None => None,
    }
}

impl AccessResponse {
    /// Picks a profile out of the members of a JSON object.
    pub fn from_members(members: &Vec<(String, String)>) -> (res: Result<AccessResponse, OAuthError>)
        ensures
            match res {
                Ok(profile) => {
                    &&& member_text(entries_view(members@), "uid"@) == Some(profile@.uid)
                    &&& member_text(entries_view(members@), "email"@) == Some(
                        profile@.email,
                    )
                },
                Err(err) => {
                    &&& err is JSONError
                    &&& (member_text(entries_view(members@), "uid"@) is None || member_text(
                        entries_view(members@),
                        "email"@,
                    ) is None)
                },
            },
    {
        let uid = match text_member(members, "uid") {
            Ok(text) => text,
            Err(err) => { return Err(err); },
        };
        let email = match text_member(members, "email") {
            Ok(text) => text,
            Err(err) => { return Err(err); },
        };
        Ok(AccessResponse { uid, email })
    }

    /// Reads a profile from the body of the profile endpoint's answer.
    ///
    /// Succeeds exactly when the body says one; every failure is a JSON error.
    pub fn decode(document: &str) -> (res: Result<AccessResponse, OAuthError>)
        ensures
            match res {
                Ok(profile) => identity(document@) == Some(profile@),
                Err(err) => err is JSONError && identity(document@) is None,
            },
    {
        let members = read_members(document)?;
        AccessResponse::from_members(&members)
    }
}

/// Starts a sign-in flow: a fresh nonce, the action `signin`, no email hint.
pub fn build_signin_response(settings: &Settings, flow: &mut Flow) -> (response: OAuthResponse)
    ensures
        initiates(response, *settings, old(flow)@, final(flow)@),
        response.action matches Some(action) && action@ == "signin"@,
        response.email is None,
{
    OAuthResponse::new(settings, flow).set_action(String::from_str("signin"))
}

/// Starts a sign-up flow: a fresh nonce, the action `signup`, no email hint.
pub fn build_signup_response(settings: &Settings, flow: &mut Flow) -> (response: OAuthResponse)
    ensures
        initiates(response, *settings, old(flow)@, final(flow)@),
        response.action matches Some(action) && action@ == "signup"@,
        response.email is None,
{
    OAuthResponse::new(settings, flow).set_action(String::from_str("signup"))
}

/// Starts a flow that leaves the choice between sign-in and sign-up to the
/// identity provider: a fresh nonce, no action, no email hint.
pub fn build_best_choice_response(settings: &Settings, flow: &mut Flow) -> (response: OAuthResponse)
    ensures
        initiates(response, *settings, old(flow)@, final(flow)@),
        response.action is None,
        response.email is None,
{
    OAuthResponse::new(settings, flow)
}

/// Starts a flow for one given account: a fresh nonce, the action
/// `force_auth`, and `email` as the hint.
pub fn build_force_auth_response(settings: &Settings, flow: &mut Flow, email: String) -> (response: OAuthResponse)
    ensures
        initiates(response, *settings, old(flow)@, final(flow)@),
        response.action matches Some(action) && action@ == "force_auth"@,
        response.email == Some(email),
{
    OAuthResponse::new(settings, flow).set_action(String::from_str("force_auth")).set_email(email)
}

} // verus!
