//! The two OAuth endpoints: the browser-facing authorization endpoint and
//! the back-channel token endpoint, together with the session-bridging step
//! that resumes a pending authorization request after login.
//!
//! Session reads and writes, redirects and HTTP plumbing are the caller's
//! business; the functions here take the session values as arguments and
//! return what the caller must do.

use vstd::prelude::*;
use vstd::string::StringExecFns;
use crate::error::OAuthError;
use crate::jwt::{jwt_encoding, jwt_payload, ClaimsData};
use crate::store::{exchange_outcome, store_after_exchange, CodeData, OAuthState};

verus! {

/// Authorization request parameters, as they arrive at the authorization
/// endpoint's query string.
#[derive(Clone, Debug)]
pub struct AuthorizeParams {
    pub client_id: String,
    pub redirect_uri: String,
    pub scope: String,
    pub state: String,
    pub code_challenge: String,
    pub code_challenge_method: String,
}

/// Token request parameters, as they arrive at the token endpoint's form
/// body.
#[derive(Clone, Debug)]
pub struct TokenParams {
    pub grant_type: String,
    pub code: String,
    pub client_id: String,
    pub code_verifier: String,
    pub redirect_uri: String,
}

/// The token endpoint's success response body.
#[derive(Clone, Debug)]
pub struct TokenResponse {
    pub access_token: String,
    /// Always `Bearer`.
    pub token_type: String,
    /// Seconds until the access token expires.
    pub expires_in: i64,
    /// Never present: refresh tokens are not supported.
    pub refresh_token: Option<String>,
}

/// What the authorization endpoint asks its caller to do.
pub enum AuthorizeAction {
    /// No authenticated subject was found in the session: remember the
    /// pending request in the session and send the browser to the login
    /// surface.  The client restarts the authorization request after login.
    LoginRedirect { pending: AuthorizeParams },
    /// A code was issued under an authenticated subject: redirect the user
    /// agent back to the client's redirect URI with code and state.
    CodeRedirect { url: String },
}

/// The redirect URL carrying a fresh authorization code back to the client.
pub fn build_redirect_url(redirect_uri: &str, code: &str, state_value: &str) -> (r: String)
    ensures
        r@ == redirect_uri@ + "?code="@ + code@ + "&state="@ + state_value@,
{
    let mut url = redirect_uri.to_owned();
    url.append("?code=");
    url.append(code);
    url.append("&state=");
    url.append(state_value);
    url
}

/// The authorization endpoint's decision, given the request parameters and
/// the authenticated subject from the browser's session, if any.
///
/// Without a subject the request is remembered and the browser is sent to
/// log in; with one, a code bound to the request is recorded in the store
/// (auto-approval: no consent screen) and the user agent is redirected to
/// `redirect_uri?code=<code>&state=<state>`.
pub fn authorize_get(
    store: &mut OAuthState,
    params: AuthorizeParams,
    session_user: Option<String>,
    now: i64,
) -> (r: AuthorizeAction)
    requires
        now + crate::AUTH_CODE_TTL_SECONDS <= i64::MAX,
    ensures
        match session_user {
            None => final(store)@ == old(store)@ && r == (AuthorizeAction::LoginRedirect {
                pending: params,
            }),
            Some(user_id) => exists|code: Seq<char>|
                {
                    &&& final(store)@ == #[trigger] old(store)@.insert(
                        code,
                        CodeData {
                            code: code,
                            client_id: params.client_id@,
                            redirect_uri: params.redirect_uri@,
                            scope: params.scope@,
                            code_challenge: params.code_challenge@,
                            code_challenge_method: params.code_challenge_method@,
                            user_id: user_id@,
                            created_at: now as int,
                            expires_at: now + crate::AUTH_CODE_TTL_SECONDS,
                        },
                    )
                    &&& r matches AuthorizeAction::CodeRedirect { url } && url@ == params.redirect_uri@
                        + "?code="@ + code + "&state="@ + params.state@
                },
        },
{
    match session_user {
        None => AuthorizeAction::LoginRedirect { pending: params },
        Some(user_id) => {
            let code = store.create_authorization_code(
                params.client_id.clone(),
                params.redirect_uri.clone(),
                params.scope.clone(),
                params.code_challenge.clone(),
                params.code_challenge_method.clone(),
                user_id,
                now,
            );
            let url = build_redirect_url(
                params.redirect_uri.as_str(),
                code.as_str(),
                params.state.as_str(),
            );
            AuthorizeAction::CodeRedirect { url }
        },
    }
}

/// The token endpoint: refuse any grant type other than `authorization_code`
/// without touching the store, otherwise exchange the code and wrap the
/// minted token in the response body the client expects.
pub fn token_post(
    store: &mut OAuthState,
    params: &TokenParams,
    now: i64,
    jwt_secret: &str,
    issuer: &str,
) -> (r: Result<TokenResponse, OAuthError>)
    requires
        now + crate::ACCESS_TOKEN_TTL_SECONDS <= i64::MAX,
    ensures
        params.grant_type@ != "authorization_code"@ ==> final(store)@ == old(store)@ && (r matches
            Err(e) && e == OAuthError::UnsupportedGrantType),
        params.grant_type@ == "authorization_code"@ ==> {
            &&& final(store)@ == store_after_exchange(
                old(store)@,
                params.code@,
                params.client_id@,
                params.code_verifier@,
                params.redirect_uri@,
                now as int,
            )
            &&& match r {
                Ok(resp) => exchange_outcome(
                    old(store)@,
                    params.code@,
                    params.client_id@,
                    params.code_verifier@,
                    params.redirect_uri@,
                    now as int,
                ) matches Ok(entry) && resp.access_token@ == jwt_encoding(
                    entry.user_id,
                    issuer@,
                    crate::spec_token_audience(),
                    now + crate::ACCESS_TOKEN_TTL_SECONDS,
                    now as int,
                    entry.scope,
                    jwt_secret@,
                ) && jwt_payload(resp.access_token@, jwt_secret@) == Some(
                    ClaimsData {
                        sub: entry.user_id,
                        iss: issuer@,
                        aud: crate::spec_token_audience(),
                        exp: now + crate::ACCESS_TOKEN_TTL_SECONDS,
                        iat: now as int,
                        scope: entry.scope,
                    },
                ) && resp.token_type@ == "Bearer"@ && resp.expires_in
                    == crate::ACCESS_TOKEN_TTL_SECONDS && resp.refresh_token is None,
                Err(e) => exchange_outcome(
                    old(store)@,
                    params.code@,
                    params.client_id@,
                    params.code_verifier@,
                    params.redirect_uri@,
                    now as int,
                ) == Err::<CodeData, OAuthError>(e),
            }
        },
{
    if !crate::text::str_eq(params.grant_type.as_str(), "authorization_code") {
        return Err(OAuthError::UnsupportedGrantType);
    }
    let (access_token, expires_in) = store.exchange_code(
        params.code.as_str(),
        params.client_id.as_str(),
        params.code_verifier.as_str(),
        params.redirect_uri.as_str(),
        now,
        jwt_secret,
        issuer,
    )?;
    Ok(
        TokenResponse {
            access_token,
            token_type: String::from_str("Bearer"),
            expires_in,
            refresh_token: None,
        },
    )
}

/// Resume a pending authorization request after login: given the values the
/// session remembered at [`authorize_get`] time, rebuild the authorization
/// URL the browser must revisit.  `Ok(None)` means no request is pending; a
/// remembered request with any later value missing is a broken session.
pub fn check_pending_oauth(
    client_id: Option<String>,
    redirect_uri: Option<String>,
    scope: Option<String>,
    state_value: Option<String>,
    code_challenge: Option<String>,
    code_challenge_method: Option<String>,
) -> (r: Result<Option<String>, OAuthError>)
    ensures
        client_id is None ==> r == Ok::<Option<String>, OAuthError>(None),
        client_id matches Some(cid) ==> match (
            redirect_uri,
            scope,
            state_value,
            code_challenge,
            code_challenge_method,
        ) {
            (Some(ru), Some(sc), Some(st), Some(cc), Some(ccm)) => r matches Ok(u) && u matches
                Some(url) && url@ == "/oauth/authorize?client_id="@ + cid@ + "&redirect_uri="@
                + ru@ + "&scope="@ + sc@ + "&state="@ + st@ + "&code_challenge="@ + cc@
                + "&code_challenge_method="@ + ccm@,
            _ => r == Err::<Option<String>, OAuthError>(OAuthError::ServerError),
        },
{
    let cid = match client_id {
        None => {
            return Ok(None);
        },
        Some(cid) => cid,
    };
    match (redirect_uri, scope, state_value, code_challenge, code_challenge_method) {
        (Some(ru), Some(sc), Some(st), Some(cc), Some(ccm)) => {
            let mut url = String::from_str("/oauth/authorize?client_id=");
            url.append(cid.as_str());
            url.append("&redirect_uri=");
            url.append(ru.as_str());
            url.append("&scope=");
            url.append(sc.as_str());
            url.append("&state=");
            url.append(st.as_str());
            url.append("&code_challenge=");
            url.append(cc.as_str());
            url.append("&code_challenge_method=");
            url.append(ccm.as_str());
            Ok(Some(url))
        },
        _ => Err(OAuthError::ServerError),
    }
}

} // verus!
