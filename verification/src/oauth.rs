//! Sign-in through Google and Facebook, as far as it is decided here: which
//! addresses are called, what is made of the provider's answers, and where the
//! browser is sent in the end. The calls themselves are the caller's.

use vstd::prelude::*;
use crate::identity::User;
use crate::json::{json_member, json_member_of, JsonItem, JsonItemView};
use crate::text::join_text;
use crate::token::{lifetime_seconds, TokenService};

verus! {

/// What `urlencoding::encode` makes of a text: every byte but the ASCII letters
/// and digits and `-`, `_`, `.`, `~` percent-encoded.
pub uninterp spec fn percent_encoded(text: Seq<char>) -> Seq<char>;

/// `urlencoding::encode`.
#[verifier::external_body]
fn url_encode(text: &str) -> (encoded: String)
    ensures
        encoded@ == percent_encoded(text@),
{
    urlencoding::encode(text).into_owned()
}

/// The providers that accounts can sign in through.
#[derive(Clone, Copy, Debug, PartialEq, Eq, Structural)]
pub enum AuthProvider {
    Google,
    Facebook,
}

/// Why a sign-in through a provider failed.
#[derive(Clone, Copy, Debug, PartialEq, Eq, Structural)]
pub enum OAuthError {
    TokenExchangeFailed,
    NoAccessToken,
    UserInfoFailed,
    UserCreationFailed,
    TokenGenerationFailed,
}

/// The query of a provider's callback.
pub struct OAuthCallbackQuery {
    pub code: String,
    pub state: String,
}

/// What Google tells about a user.
pub struct GoogleUserInfo {
    pub id: String,
    pub email: String,
    pub given_name: Option<String>,
    pub family_name: Option<String>,
    pub picture: Option<String>,
}

/// The address of a picture at Facebook.
pub struct FacebookPictureData {
    pub url: String,
}

/// A picture as Facebook describes it.
pub struct FacebookPicture {
    pub data: FacebookPictureData,
}

/// What Facebook tells about a user.
pub struct FacebookUserInfo {
    pub id: String,
    pub email: Option<String>,
    pub first_name: Option<String>,
    pub last_name: Option<String>,
    pub picture: Option<FacebookPicture>,
}

/// What a provider told about a user, whichever provider it was.
pub struct OAuthProfile {
    pub provider: AuthProvider,
    /// The user's identifier at the provider.
    pub oauth_id: String,
    pub email: Option<String>,
    pub first_name: Option<String>,
    pub last_name: Option<String>,
    pub picture: Option<String>,
}

/// An account to create for a user who signed in through a provider for the
/// first time. It has no password and no role yet.
pub struct NewOAuthAccount {
    pub provider: AuthProvider,
    pub oauth_id: String,
    pub email: String,
    pub first_name: Option<String>,
    pub last_name: Option<String>,
    pub profile_picture: Option<String>,
}

/// What is to be done with the store after a provider's sign-in.
pub enum OAuthStep {
    /// The account exists: its last login is to be noted.
    Existing(User),
    /// The account is to be created.
    Create(NewOAuthAccount),
}

/// The name of a provider as it appears in addresses.
pub open spec fn provider_name(provider: AuthProvider) -> Seq<char> {
    match provider {
        AuthProvider::Google => "google"@,
        AuthProvider::Facebook => "facebook"@,
    }
}

/// The address that a provider calls back.
pub open spec fn callback_address(provider: AuthProvider) -> Seq<char> {
    match provider {
        AuthProvider::Google => "http://localhost:3001/api/auth/google/callback"@,
        AuthProvider::Facebook => "http://localhost:3001/api/auth/facebook/callback"@,
    }
}

/// The address a browser is sent to for signing in at a provider.
pub open spec fn authorization_address(provider: AuthProvider, client_id: Seq<char>) -> Seq<char> {
    match provider {
        AuthProvider::Google => "https://accounts.google.com/o/oauth2/auth?client_id="@ + client_id
            + "&redirect_uri="@ + percent_encoded(callback_address(provider))
            + "&scope=email%20profile&response_type=code"@,
        AuthProvider::Facebook => "https://www.facebook.com/v18.0/dialog/oauth?client_id="@
            + client_id + "&redirect_uri="@ + percent_encoded(callback_address(provider))
            + "&scope=email&response_type=code"@,
    }
}

/// The address at which a code is exchanged for an access token.
pub open spec fn exchange_address(
    provider: AuthProvider,
    client_id: Seq<char>,
    client_secret: Seq<char>,
    code: Seq<char>,
) -> Seq<char> {
    match provider {
        AuthProvider::Google => "https://oauth2.googleapis.com/token?client_id="@ + client_id
            + "&client_secret="@ + client_secret + "&code="@ + code
            + "&grant_type=authorization_code&redirect_uri="@ + percent_encoded(
            callback_address(provider),
        ),
        AuthProvider::Facebook => "https://graph.facebook.com/v18.0/oauth/access_token?client_id="@
            + client_id + "&redirect_uri="@ + percent_encoded(callback_address(provider))
            + "&client_secret="@ + client_secret + "&code="@ + code,
    }
}

/// The address at which a provider describes the user of an access token.
pub open spec fn user_info_address(provider: AuthProvider, access_token: Seq<char>) -> Seq<char> {
    match provider {
        AuthProvider::Google => "https://www.googleapis.com/oauth2/v2/userinfo?access_token="@
            + access_token,
        AuthProvider::Facebook => "https://graph.facebook.com/me?fields=id,email,first_name,last_name,picture&access_token="@
            + access_token,
    }
}

/// The email of an account whose provider told none: the identifier at the
/// provider's name under `.local`.
pub open spec fn stand_in_email(provider: AuthProvider, oauth_id: Seq<char>) -> Seq<char> {
    oauth_id + "@"@ + provider_name(provider) + ".local"@
}

/// The code under which a failure is reported to the frontend.
pub open spec fn error_code(error: OAuthError) -> Seq<char> {
    match error {
        OAuthError::TokenExchangeFailed => "token_exchange_failed"@,
        OAuthError::NoAccessToken => "no_access_token"@,
        OAuthError::UserInfoFailed => "user_info_failed"@,
        OAuthError::UserCreationFailed => "user_creation_failed"@,
        OAuthError::TokenGenerationFailed => "token_generation_failed"@,
    }
}

/// The address the browser is sent to after a failure.
pub open spec fn error_redirect(frontend_url: Seq<char>, error: OAuthError) -> Seq<char> {
    frontend_url + "?error="@ + error_code(error)
}

/// The address the browser is sent to with a token.
pub open spec fn token_redirect(frontend_url: Seq<char>, token: Seq<char>) -> Seq<char> {
    frontend_url + "/?token="@ + token
}

fn callback_url(provider: AuthProvider) -> (url: &'static str)
    ensures
        url@ == callback_address(provider),
{
    match provider {
        AuthProvider::Google => "http://localhost:3001/api/auth/google/callback",
        AuthProvider::Facebook => "http://localhost:3001/api/auth/facebook/callback",
    }
}

/// The address to send a browser to for signing in at `provider`.
pub fn authorization_url(provider: AuthProvider, client_id: &str) -> (url: String)
    ensures
        url@ == authorization_address(provider, client_id@),
{
    let redirect = url_encode(callback_url(provider));
    let mut url = match provider {
        AuthProvider::Google => join_text(
            "https://accounts.google.com/o/oauth2/auth?client_id=",
            client_id,
        ),
        AuthProvider::Facebook => join_text(
            "https://www.facebook.com/v18.0/dialog/oauth?client_id=",
            client_id,
        ),
    };
    url.append("&redirect_uri=");
    url.append(redirect.as_str());
    match provider {
        AuthProvider::Google => url.append("&scope=email%20profile&response_type=code"),
        AuthProvider::Facebook => url.append("&scope=email&response_type=code"),
    }
    url
}

/// The address to send a browser to for signing in at Google.
pub fn google_auth(client_id: &str) -> (url: String)
    ensures
        url@ == authorization_address(AuthProvider::Google, client_id@),
{
    authorization_url(AuthProvider::Google, client_id)
}

/// The address to send a browser to for signing in at Facebook.
pub fn facebook_auth(client_id: &str) -> (url: String)
    ensures
        url@ == authorization_address(AuthProvider::Facebook, client_id@),
{
    authorization_url(AuthProvider::Facebook, client_id)
}

/// The address at which the code of a callback is exchanged for an access token.
pub fn token_exchange_url(
    provider: AuthProvider,
    client_id: &str,
    client_secret: &str,
    query: &OAuthCallbackQuery,
) -> (url: String)
    ensures
        url@ == exchange_address(provider, client_id@, client_secret@, query.code@),
{
    let redirect = url_encode(callback_url(provider));
    match provider {
        AuthProvider::Google => {
            let mut url = join_text("https://oauth2.googleapis.com/token?client_id=", client_id);
            url.append("&client_secret=");
            url.append(client_secret);
            url.append("&code=");
            url.append(query.code.as_str());
            url.append("&grant_type=authorization_code&redirect_uri=");
            url.append(redirect.as_str());
            url
        },
        AuthProvider::Facebook => {
            let mut url = join_text(
                "https://graph.facebook.com/v18.0/oauth/access_token?client_id=",
                client_id,
            );
            url.append("&redirect_uri=");
            url.append(redirect.as_str());
            url.append("&client_secret=");
            url.append(client_secret);
            url.append("&code=");
            url.append(query.code.as_str());
            url
        },
    }
}

/// The address at which `provider` describes the user of an access token.
pub fn user_info_url(provider: AuthProvider, access_token: &str) -> (url: String)
    ensures
        url@ == user_info_address(provider, access_token@),
{
    match provider {
        AuthProvider::Google => join_text(
            "https://www.googleapis.com/oauth2/v2/userinfo?access_token=",
            access_token,
        ),
        AuthProvider::Facebook => join_text(
            "https://graph.facebook.com/me?fields=id,email,first_name,last_name,picture&access_token=",
            access_token,
        ),
    }
}

/// The access token in a provider's answer to the exchange: the member
/// `access_token` where it is a string, else `NoAccessToken`.
pub fn access_token_in(answer: &str) -> (token: Result<String, OAuthError>)
    ensures
        match json_member_of(answer@, "access_token"@) {
            JsonItemView::Text(t) => token is Ok && token->Ok_0@ == t,
            _ => token is Err && token->Err_0 == OAuthError::NoAccessToken,
        },
{
    match json_member(answer, "access_token") {
        JsonItem::Text(t) => Ok(t),
        _ => Err(OAuthError::NoAccessToken),
    }
}

/// What Google told, as a profile.
pub fn google_profile(info: GoogleUserInfo) -> (profile: OAuthProfile)
    ensures
        profile.provider == AuthProvider::Google,
        profile.oauth_id == info.id,
        profile.email == Some(info.email),
        profile.first_name == info.given_name,
        profile.last_name == info.family_name,
        profile.picture == info.picture,
{
    OAuthProfile {
        provider: AuthProvider::Google,
        oauth_id: info.id,
        email: Some(info.email),
        first_name: info.given_name,
        last_name: info.family_name,
        picture: info.picture,
    }
}

/// What Facebook told, as a profile.
pub fn facebook_profile(info: FacebookUserInfo) -> (profile: OAuthProfile)
    ensures
        profile.provider == AuthProvider::Facebook,
        profile.oauth_id == info.id,
        profile.email == info.email,
        profile.first_name == info.first_name,
        profile.last_name == info.last_name,
        profile.picture == (match info.picture {
            Some(p) => Some(p.data.url),
            None => None,
        }),
{
    OAuthProfile {
        provider: AuthProvider::Facebook,
        oauth_id: info.id,
        email: info.email,
        first_name: info.first_name,
        last_name: info.last_name,
        picture: match info.picture {
            Some(p) => Some(p.data.url),
            None => None,
        },
    }
}

/// Decides what to do with the store after a provider's sign-in.
///
/// `existing` is the account stored under the provider's identifier. Where
/// there is one it is kept as it is. Where there is none an account is to be
/// created from the profile, with a stand-in email if the provider told none.
pub fn create_or_update_oauth_user(existing: Option<User>, profile: OAuthProfile) -> (step: OAuthStep)
    ensures
        match existing {
            Some(user) => step matches OAuthStep::Existing(kept) && kept == user,
            None => step matches OAuthStep::Create(account) && {
                &&& account.provider == profile.provider
                &&& account.oauth_id@ == profile.oauth_id@
                &&& account.email@ == (match profile.email {
                    Some(e) => e@,
                    None => stand_in_email(profile.provider, profile.oauth_id@),
                })
                &&& account.first_name == profile.first_name
                &&& account.last_name == profile.last_name
                &&& account.profile_picture == profile.picture
            },
        },
{
    match existing {
        Some(user) => OAuthStep::Existing(user),
        None => {
            let email = match profile.email {
                Some(e) => e,
                None => {
                    let mut e = join_text(profile.oauth_id.as_str(), "@");
                    match profile.provider {
                        AuthProvider::Google => e.append("google"),
                        AuthProvider::Facebook => e.append("facebook"),
                    }
                    e.append(".local");
                    e
                },
            };
            OAuthStep::Create(
                NewOAuthAccount {
                    provider: profile.provider,
                    oauth_id: profile.oauth_id,
                    email,
                    first_name: profile.first_name,
                    last_name: profile.last_name,
                    profile_picture: profile.picture,
                },
            )
        },
    }
}

/// The address to send the browser to after a failure.
pub fn redirect_with_error(frontend_url: &str, error: OAuthError) -> (url: String)
    ensures
        url@ == error_redirect(frontend_url@, error),
{
    let mut url = join_text(frontend_url, "?error=");
    match error {
        OAuthError::TokenExchangeFailed => url.append("token_exchange_failed"),
        OAuthError::NoAccessToken => url.append("no_access_token"),
        OAuthError::UserInfoFailed => url.append("user_info_failed"),
        OAuthError::UserCreationFailed => url.append("user_creation_failed"),
        OAuthError::TokenGenerationFailed => url.append("token_generation_failed"),
    }
    url
}

/// The address to send the browser to once the account is known: the frontend
/// with a token issued at `now`, or with an error where none could be issued.
pub fn redirect_with_token(service: &TokenService, frontend_url: &str, user: &User, now: u64) -> (url:
    String)
    ensures
        now + lifetime_seconds(service.token_lifetime()) <= u64::MAX ==> url@ == (
        match service.token_for(*user, now) {
            Some(token) => token_redirect(frontend_url@, token),
            None => error_redirect(frontend_url@, OAuthError::TokenGenerationFailed),
        }),
        now + lifetime_seconds(service.token_lifetime()) > u64::MAX ==> url@ == error_redirect(
            frontend_url@,
            OAuthError::TokenGenerationFailed,
        ),
{
    match service.issue_at(user, now) {
        Ok(token) => {
            let mut url = join_text(frontend_url, "/?token=");
            url.append(token.as_str());
            url
        },
        Err(_) => redirect_with_error(frontend_url, OAuthError::TokenGenerationFailed),
    }
}

/// Where a callback ends: with a token for the account, or with the first
/// failure on the way to it.
pub fn callback_redirect(
    service: &TokenService,
    frontend_url: &str,
    outcome: Result<&User, OAuthError>,
    now: u64,
) -> (url: String)
    ensures
        outcome matches Err(e) ==> url@ == error_redirect(frontend_url@, e),
        outcome is Ok && now + lifetime_seconds(service.token_lifetime()) <= u64::MAX ==> url@ == (
        match service.token_for(*outcome->Ok_0, now) {
            Some(token) => token_redirect(frontend_url@, token),
            None => error_redirect(frontend_url@, OAuthError::TokenGenerationFailed),
        }),
        outcome is Ok && now + lifetime_seconds(service.token_lifetime()) > u64::MAX ==> url@
            == error_redirect(frontend_url@, OAuthError::TokenGenerationFailed),
{
    match outcome {
        Ok(user) => redirect_with_token(service, frontend_url, user, now),
        Err(e) => redirect_with_error(frontend_url, e),
    }
}

} // verus!
