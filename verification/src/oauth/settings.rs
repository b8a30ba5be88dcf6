//! The configuration snapshot every component reads.

use vstd::prelude::*;

verus! {

/// The relay's configuration, fixed once the process has started.
#[derive(Clone)]
pub struct Settings {
    pub public_key_path: String,
    pub secret_key_path: String,
    pub client_id: String,
    pub client_secret: String,
    pub redirect_uri: String,
    pub oauth_uri: String,
    pub content_uri: String,
    pub profile_uri: String,
}

/// The name of the first configuration variable that has no value, looking at
/// them in the order in which the relay asks for them; `None` when all eight
/// are present.
pub open spec fn first_missing(
    public_key_path: Option<String>,
    secret_key_path: Option<String>,
    client_id: Option<String>,
    redirect_uri: Option<String>,
    oauth_uri: Option<String>,
    content_uri: Option<String>,
    profile_uri: Option<String>,
    client_secret: Option<String>,
) -> Option<Seq<char>> {
    if public_key_path is None {
        Some("PUBLIC_KEY_PATH"@)
    } else if secret_key_path is None {
        Some("SECRET_KEY_PATH"@)
    } else if client_id is None {
        Some("CLIENT_ID"@)
    } else if redirect_uri is None {
        Some("REDIRECT_URI"@)
    } else if oauth_uri is None {
        Some("OAUTH_URI"@)
    } else if content_uri is None {
        Some("CONTENT_URI"@)
    } else if profile_uri is None {
        Some("PROFILE_URI"@)
    } else if client_secret is None {
        Some("CLIENT_SECRET"@)
    } else {
        None
    }
}

/// Reads the configuration from the values that were found for the eight
/// variables. Every variable must have a value: a relay that lacks one does
/// not start.
pub fn read_settings(
    public_key_path: Option<String>,
    secret_key_path: Option<String>,
    client_id: Option<String>,
    redirect_uri: Option<String>,
    oauth_uri: Option<String>,
    content_uri: Option<String>,
    profile_uri: Option<String>,
    client_secret: Option<String>,
) -> (settings: Settings)
    requires
        first_missing(
            public_key_path,
            secret_key_path,
            client_id,
            redirect_uri,
            oauth_uri,
            content_uri,
            profile_uri,
            client_secret,
        ) is None,
    ensures
        Some(settings.public_key_path) == public_key_path,
        Some(settings.secret_key_path) == secret_key_path,
        Some(settings.client_id) == client_id,
        Some(settings.redirect_uri) == redirect_uri,
        Some(settings.oauth_uri) == oauth_uri,
        Some(settings.content_uri) == content_uri,
        Some(settings.profile_uri) == profile_uri,
        Some(settings.client_secret) == client_secret,
{
    Settings {
        public_key_path: public_key_path.unwrap(),
        secret_key_path: secret_key_path.unwrap(),
        client_id: client_id.unwrap(),
        client_secret: client_secret.unwrap(),
        redirect_uri: redirect_uri.unwrap(),
        oauth_uri: oauth_uri.unwrap(),
        content_uri: content_uri.unwrap(),
        profile_uri: profile_uri.unwrap(),
    }
}

/// Tests whether every variable has a value before the configuration is
/// read.
///
/// Succeeds exactly when every variable has a value, and then holds each value
/// unchanged. Otherwise nothing is read, and the error is the name of the
/// first variable without a value.
pub fn try_read_settings(
    public_key_path: Option<String>,
    secret_key_path: Option<String>,
    client_id: Option<String>,
    redirect_uri: Option<String>,
    oauth_uri: Option<String>,
    content_uri: Option<String>,
    profile_uri: Option<String>,
    client_secret: Option<String>,
) -> (res: Result<Settings, String>)
    ensures
        match res {
            Ok(settings) => {
                &&& first_missing(
                    public_key_path,
                    secret_key_path,
                    client_id,
                    redirect_uri,
                    oauth_uri,
                    content_uri,
                    profile_uri,
                    client_secret,
                ) is None
                &&& Some(settings.public_key_path) == public_key_path
                &&& Some(settings.secret_key_path) == secret_key_path
                &&& Some(settings.client_id) == client_id
                &&& Some(settings.redirect_uri) == redirect_uri
                &&& Some(settings.oauth_uri) == oauth_uri
                &&& Some(settings.content_uri) == content_uri
                &&& Some(settings.profile_uri) == profile_uri
                &&& Some(settings.client_secret) == client_secret
            },
            Err(name) => first_missing(
                public_key_path,
                secret_key_path,
                client_id,
                redirect_uri,
                oauth_uri,
                content_uri,
                profile_uri,
                client_secret,
            ) == Some(name@),
        },
{
    if public_key_path.is_none() {
        return Err("PUBLIC_KEY_PATH".to_string());
    }
    if secret_key_path.is_none() {
        return Err("SECRET_KEY_PATH".to_string());
    }
    if client_id.is_none() {
        return Err("CLIENT_ID".to_string());
    }
    if redirect_uri.is_none() {
        return Err("REDIRECT_URI".to_string());
    }
    if oauth_uri.is_none() {
        return Err("OAUTH_URI".to_string());
    }
    if content_uri.is_none() {
        return Err("CONTENT_URI".to_string());
    }
    if profile_uri.is_none() {
        return Err("PROFILE_URI".to_string());
    }
    if client_secret.is_none() {
        return Err("CLIENT_SECRET".to_string());
    }
    Ok(
        read_settings(
            public_key_path,
            secret_key_path,
            client_id,
            redirect_uri,
            oauth_uri,
            content_uri,
            profile_uri,
            client_secret,
        ),
    )
}

} // verus!
