//! Signing in with Spotify (authorization code with PKCE), refreshing tokens, and retrying a
//! Spotify call once after an expired token.
use vstd::prelude::*;
use vstd::string::StringExecFns;
use crate::models::{SpotifyTokenResponse, SpotifyUserProfile};
use crate::paging::{url_with_query, url_with_query_spec};
use crate::pkce::{
    generate_code_verifier, generate_code_challenge, generate_state, encode_base64_standard, encode_base64_url_no_pad,
    base64_standard_spec, base64_url_no_pad_spec, sha256_spec, is_ascii_alnum,
};
use crate::session::{VerifierStore, put_spec, taken_spec, take_rest_spec};
use vstd::utf8::encode_utf8;
use crate::text::{append, push_decimal, decimal, pair_views, is_ws};

verus! {

/// The signed-in user, as the session store knows them.
pub struct AuthenticatedUser {
    pub spotify_id: String,
    pub access_token: String,
    pub refresh_token: Option<String>,
}

/// How a Spotify call goes on after it failed.
pub enum RetryStep {
    /// Refresh the access token, then call again with the new one.
    RefreshAndRetry,
    /// Give up with this message.
    Fail(String),
}

/// Retries a Spotify call at most once, and only after a 401.
pub struct ApiRetry {
    pub retries: u32,
}

/// The message of a Spotify call that failed for good.
pub open spec fn api_error_message(status: u16, msg: Seq<char>) -> Seq<char> {
    "Spotify API Error ("@ + decimal(status as nat) + "): "@ + msg
}

/// Whether a call that failed with `status`, after `retries` retries, is tried again.
pub open spec fn retries_after(status: u16, retries: u32) -> bool {
    status == 401 && retries == 0
}

impl ApiRetry {
    pub fn new() -> (r: ApiRetry)
        ensures
            r.retries == 0,
    {
        ApiRetry { retries: 0 }
    }

    /// A call failed with `status` and `msg`: an expired token (401) is refreshed once, and any
    /// other failure, or a second 401, ends the call with `Spotify API Error (<status>): <msg>`.
    pub fn on_error(&mut self, status: u16, msg: &str) -> (r: RetryStep)
        ensures
            retries_after(status, old(self).retries) ==> (r is RefreshAndRetry && final(self).retries
                == 1),
            !retries_after(status, old(self).retries) ==> (r matches RetryStep::Fail(m) && m@
                == api_error_message(status, msg@) && final(self).retries == old(self).retries),
    {
        if status == 401 && self.retries == 0 {
            self.retries = 1;
            RetryStep::RefreshAndRetry
        } else {
            let mut m = String::from_str("Spotify API Error (");
            push_decimal(&mut m, status as u64);
            append(&mut m, "): ");
            append(&mut m, msg);
            RetryStep::Fail(m)
        }
    }
}

/// A call is retried at most once: after the first refresh, every failure is final.
pub proof fn law_at_most_one_refresh(first: u16, second: u16)
    ensures
        retries_after(first, 0) ==> !retries_after(second, 1),
        !retries_after(first, 0) ==> first != 401,
{
}

/// The refresh token to send, or the error when the user has none.
pub fn refresh_token_to_send(user: &AuthenticatedUser) -> (r: Result<String, String>)
    ensures
        match user.refresh_token {
            Some(t) => r == Ok::<String, String>(t),
            None => r matches Err(m) && m@ == "No refresh token available"@,
        },
{
    match &user.refresh_token {
        Some(t) => Ok(t.clone()),
        None => Err(String::from_str("No refresh token available")),
    }
}

/// The refresh token kept after a refresh: the new one if Spotify sent one, else the old one.
pub fn kept_refresh_token(new_token: &Option<String>, old_token: &String) -> (r: String)
    ensures
        r == (match new_token {
            Some(t) => *t,
            None => *old_token,
        }),
{
    match new_token {
        Some(t) => t.clone(),
        None => old_token.clone(),
    }
}

/// The user after a refresh: same id, the new access token, and the kept refresh token.
pub fn refreshed_user(user: &AuthenticatedUser, old_refresh: &String, access_token: String, new_refresh: &Option<String>) -> (r: AuthenticatedUser)
    ensures
        r.spotify_id == user.spotify_id,
        r.access_token == access_token,
        r.refresh_token == Some(match new_refresh {
            Some(t) => *t,
            None => *old_refresh,
        }),
{
    AuthenticatedUser {
        spotify_id: user.spotify_id.clone(),
        access_token,
        refresh_token: Some(kept_refresh_token(new_refresh, old_refresh)),
    }
}

/// `Basic` followed by the padded standard base64 of `<client id>:<client secret>`, the header
/// sent when refreshing a token.
pub fn refresh_authorization(client_id: &str, client_secret: &str) -> (r: String)
    requires
        encode_utf8(client_id@ + ":"@ + client_secret@).len() <= usize::MAX / 2,
    ensures
        r@ == "Basic "@ + base64_standard_spec(encode_utf8(client_id@ + ":"@ + client_secret@)),
{
    let mut creds = String::from_str(client_id);
    append(&mut creds, ":");
    append(&mut creds, client_secret);
    let b = creds.as_str().as_bytes();
    let mut r = String::from_str("Basic ");
    let enc = encode_base64_standard(b);
    append(&mut r, enc.as_str());
    r
}

} // verus!

verus! {

/// The permissions asked of the user.
pub open spec fn login_scope() -> Seq<char> {
    "playlist-read-private playlist-read-collaborative playlist-modify-private playlist-modify-public
    user-read-private user-read-email ugc-image-upload user-library-read"@
}

/// Whether `scope` grants `p`: `p` stands in it as a whole word, between white space or the
/// ends.
pub open spec fn grants(scope: Seq<char>, p: Seq<char>) -> bool {
    exists|i: int|
        0 <= i && i + p.len() <= scope.len() && #[trigger] scope.subrange(i, i + p.len()) == p && (i == 0
            || is_ws(scope[i - 1])) && (i + p.len() == scope.len() || is_ws(scope[i + p.len()]))
}

proof fn lemma_grants_at(scope: Seq<char>, p: Seq<char>, i: int)
    requires
        0 <= i && i + p.len() <= scope.len(),
        scope.subrange(i, i + p.len()) == p,
        i == 0 || is_ws(scope[i - 1]),
        i + p.len() == scope.len() || is_ws(scope[i + p.len()]),
    ensures
        grants(scope, p),
{
}

/// The sign-in asks for every permission the library's work needs: reading the user's
/// profile and playlists (private and collaborative ones too) and library, creating and
/// filling private and public playlists, and uploading their cover images. The scope is the
/// third pair of the authorization query.
pub proof fn law_sign_in_asks_for_needed_permissions(
    client_id: Seq<char>,
    redirect_uri: Seq<char>,
    state: Seq<char>,
    challenge: Seq<char>,
)
    ensures
        ({
            let q = authorize_pairs(client_id, redirect_uri, state, challenge);
            let scope = q[2].1;
            &&& q.len() == 7
            &&& q[2].0 == "scope"@
            &&& grants(scope, "playlist-read-private"@)
            &&& grants(scope, "playlist-read-collaborative"@)
            &&& grants(scope, "playlist-modify-private"@)
            &&& grants(scope, "playlist-modify-public"@)
            &&& grants(scope, "user-read-private"@)
            &&& grants(scope, "user-read-email"@)
            &&& grants(scope, "ugc-image-upload"@)
            &&& grants(scope, "user-library-read"@)
        }),
{
    let scope = login_scope();
    reveal_strlit("playlist-read-private playlist-read-collaborative playlist-modify-private playlist-modify-public
    user-read-private user-read-email ugc-image-upload user-library-read");
    reveal_strlit("scope");
    reveal_strlit("playlist-read-private");
    reveal_strlit("playlist-read-collaborative");
    reveal_strlit("playlist-modify-private");
    reveal_strlit("playlist-modify-public");
    reveal_strlit("user-read-private");
    reveal_strlit("user-read-email");
    reveal_strlit("ugc-image-upload");
    reveal_strlit("user-library-read");
    assert(scope.subrange(0, 21) =~= "playlist-read-private"@);
    lemma_grants_at(scope, "playlist-read-private"@, 0);
    assert(scope.subrange(22, 49) =~= "playlist-read-collaborative"@);
    lemma_grants_at(scope, "playlist-read-collaborative"@, 22);
    assert(scope.subrange(50, 73) =~= "playlist-modify-private"@);
    lemma_grants_at(scope, "playlist-modify-private"@, 50);
    assert(scope.subrange(74, 96) =~= "playlist-modify-public"@);
    lemma_grants_at(scope, "playlist-modify-public"@, 74);
    assert(scope.subrange(101, 118) =~= "user-read-private"@);
    lemma_grants_at(scope, "user-read-private"@, 101);
    assert(scope.subrange(119, 134) =~= "user-read-email"@);
    lemma_grants_at(scope, "user-read-email"@, 119);
    assert(scope.subrange(135, 151) =~= "ugc-image-upload"@);
    lemma_grants_at(scope, "ugc-image-upload"@, 135);
    assert(scope.subrange(152, 169) =~= "user-library-read"@);
    lemma_grants_at(scope, "user-library-read"@, 152);
}

/// The query of the authorization request.
pub open spec fn authorize_pairs(
    client_id: Seq<char>,
    redirect_uri: Seq<char>,
    state: Seq<char>,
    challenge: Seq<char>,
) -> Seq<(Seq<char>, Seq<char>)> {
    seq![
        ("response_type"@, "code"@),
        ("client_id"@, client_id),
        ("scope"@, login_scope()),
        ("redirect_uri"@, redirect_uri),
        ("state"@, state),
        ("code_challenge_method"@, "S256"@),
        ("code_challenge"@, challenge),
    ]
}

/// The PKCE challenge of a verifier.
pub open spec fn challenge_of(verifier: Seq<char>) -> Seq<char> {
    base64_url_no_pad_spec(sha256_spec(encode_utf8(verifier)))
}

/// Where the user is sent to sign in, and the `state` remembered for the callback.
pub struct LoginStart {
    pub state: String,
    /// The authorization URL; `None` only if the fixed endpoint did not parse.
    pub url: Option<String>,
}

fn pair(k: &str, v: &str) -> (r: (String, String))
    ensures
        r.0@ == k@,
        r.1@ == v@,
{
    (String::from_str(k), String::from_str(v))
}

/// Starts a sign-in: a fresh verifier is remembered under a fresh random `state`, and the
/// authorization URL carries the state and the verifier's S256 challenge.
pub fn begin_login(store: &mut VerifierStore, client_id: &str, redirect_uri: &str) -> (r: LoginStart)
    ensures
        ({
            let v = final(store)@[r.state@];
            &&& final(store)@ == put_spec(old(store)@, r.state@, v)
            &&& v@.len() == 128
            &&& forall|i: int| 0 <= i < 128 ==> is_ascii_alnum(#[trigger] v@[i])
            &&& r.state@.len() == 16
            &&& forall|i: int| 0 <= i < 16 ==> is_ascii_alnum(#[trigger] r.state@[i])
            &&& url_with_query_spec(
                "https://accounts.spotify.com/authorize"@,
                authorize_pairs(client_id@, redirect_uri@, r.state@, challenge_of(v@)),
            ) == (match r.url {
                Some(u) => Some(u@),
                None => None::<Seq<char>>,
            })
        }),
{
    let verifier = generate_code_verifier();
    let challenge = generate_code_challenge(verifier.as_str());
    let state = generate_state();
    let ghost v = verifier;
    let mut pairs: Vec<(String, String)> = Vec::new();
    pairs.push(pair("response_type", "code"));
    pairs.push(pair("client_id", client_id));
    pairs.push(
        pair(
            "scope",
            "playlist-read-private playlist-read-collaborative playlist-modify-private playlist-modify-public
    user-read-private user-read-email ugc-image-upload user-library-read",
        ),
    );
    pairs.push(pair("redirect_uri", redirect_uri));
    pairs.push(pair("state", state.as_str()));
    pairs.push(pair("code_challenge_method", "S256"));
    pairs.push(pair("code_challenge", challenge.as_str()));
    store.put(state.clone(), verifier);
    assert(pair_views(pairs@) =~= authorize_pairs(client_id@, redirect_uri@, state@, challenge_of(v@)));
    proof {
        reveal_strlit("https://accounts.spotify.com/authorize");
    }
    let url = url_with_query("https://accounts.spotify.com/authorize", &pairs);
    LoginStart { state, url }
}

/// What the OAuth callback needs done next.
pub enum CallbackAction {
    /// Send the browser to this path (a failure, named in the `error` query parameter).
    Redirect(String),
    /// Exchange the code: post this form with this `Authorization` header.
    RequestToken { form: Vec<(String, String)>, authorization: String },
    /// Fetch the profile of the token's owner.
    FetchProfile { access_token: String },
    /// Store the user with these tokens (an absent refresh token stored as empty).
    SaveUser { spotify_id: String, display_name: String, access_token: String, refresh_token: String },
    /// Create a session for the user.
    CreateSession { spotify_id: String },
    /// Set the session cookie and send the browser home.
    SetSessionCookie { session_id: String },
}

/// How the token request came back.
pub enum TokenOutcome {
    /// The request could not be sent.
    NetworkError,
    /// Spotify answered with an error status.
    Rejected,
    /// The answer was not a token response.
    Unparsable,
    Tokens(SpotifyTokenResponse),
}

/// What redeeming a callback's state does to the store `m`, and its outcome: the code and the
/// verifier, or the path the browser is sent to.
pub open spec fn redeem_spec(m: Map<Seq<char>, String>, code: Option<String>, state: Option<String>) -> (Map<Seq<char>, String>, Result<(String, String), Seq<char>>) {
    match code {
        None => (m, Err(login_error("missing_code"@))),
        Some(c) => match state {
            None => (m, Err(login_error("missing_state"@))),
            Some(s) => (take_rest_spec(m, s@), match taken_spec(m, s@) {
                Some(v) => Ok((c, v)),
                None => Err(login_error("state_mismatch"@)),
            }),
        },
    }
}

/// The state of one OAuth callback.
pub struct CallbackFlow {
    pub access_token: String,
    pub refresh_token: Option<String>,
    pub spotify_id: String,
}

/// The form that exchanges an authorization code for tokens.
pub open spec fn token_form(code: Seq<char>, redirect_uri: Seq<char>, client_id: Seq<char>, verifier: Seq<char>) -> Seq<(Seq<char>, Seq<char>)> {
    seq![
        ("grant_type"@, "authorization_code"@),
        ("code"@, code),
        ("redirect_uri"@, redirect_uri),
        ("client_id"@, client_id),
        ("code_verifier"@, verifier),
    ]
}

/// A redirect to `/login` naming the failure.
pub open spec fn login_error(reason: Seq<char>) -> Seq<char> {
    "/login?error="@ + reason
}

fn login_error_path(reason: &str) -> (r: String)
    ensures
        r@ == login_error(reason@),
{
    let mut r = String::from_str("/login?error=");
    append(&mut r, reason);
    r
}

impl CallbackFlow {
    /// Redeems the callback's state: the code and the state must be present, and the state
    /// must be one this server issued and has not redeemed; its verifier is then taken out of
    /// the store, whatever happens afterwards. A missing code or state leaves the store
    /// untouched.
    /// The outcome is the code and the verifier, or the path the browser is sent to.
    pub fn redeem(store: &mut VerifierStore, code: Option<String>, state: Option<String>) -> (r: Result<(String, String), String>)
        ensures
            redeem_spec(old(store)@, code, state) == (final(store)@, match r {
                Ok((c, v)) => Ok::<(String, String), Seq<char>>((c, v)),
                Err(p) => Err::<(String, String), Seq<char>>(p@),
            }),
    {
        let code = match code {
            Some(c) => c,
            None => return Err(login_error_path("missing_code")),
        };
        let state = match state {
            Some(s) => s,
            None => return Err(login_error_path("missing_state")),
        };
        match store.take(state.as_str()) {
            Some(v) => Ok((code, v)),
            None => Err(login_error_path("state_mismatch")),
        }
    }

    /// Starts the callback: the state is redeemed, and with it the code is to be exchanged for
    /// tokens.
    pub fn start(
        store: &mut VerifierStore,
        code: Option<String>,
        state: Option<String>,
        client_id: &str,
        client_secret: &str,
        redirect_uri: &str,
    ) -> (r: (CallbackFlow, CallbackAction))
        requires
            encode_utf8(client_id@ + ":"@ + client_secret@).len() <= usize::MAX / 2,
        ensures
            final(store)@ == redeem_spec(old(store)@, code, state).0,
            match redeem_spec(old(store)@, code, state).1 {
                Err(p) => r.1 matches CallbackAction::Redirect(q) && q@ == p,
                Ok((c, v)) => r.1 matches CallbackAction::RequestToken { form, authorization }
                    && pair_views(form@) == token_form(c@, redirect_uri@, client_id@, v@)
                    && authorization@ == "Basic "@ + base64_url_no_pad_spec(
                    encode_utf8(client_id@ + ":"@ + client_secret@),
                ),
            },
    {
        let flow = CallbackFlow { access_token: String::new(), refresh_token: None, spotify_id: String::new() };
        let (code, verifier) = match CallbackFlow::redeem(store, code, state) {
            Ok(cv) => cv,
            Err(p) => return (flow, CallbackAction::Redirect(p)),
        };
        let mut form: Vec<(String, String)> = Vec::new();
        form.push(pair("grant_type", "authorization_code"));
        form.push(pair("code", code.as_str()));
        form.push(pair("redirect_uri", redirect_uri));
        form.push(pair("client_id", client_id));
        form.push(pair("code_verifier", verifier.as_str()));
        let mut creds = String::from_str(client_id);
        append(&mut creds, ":");
        append(&mut creds, client_secret);
        let mut authorization = String::from_str("Basic ");
        let enc = encode_base64_url_no_pad(creds.as_str().as_bytes());
        append(&mut authorization, enc.as_str());
        (flow, CallbackAction::RequestToken { form, authorization })
    }

    /// The token request came back: on success the tokens are kept and the profile is fetched.
    pub fn on_token(&mut self, t: TokenOutcome) -> (a: CallbackAction)
        ensures
            match t {
                TokenOutcome::NetworkError => a matches CallbackAction::Redirect(p) && p@ == login_error(
                    "network_error"@,
                ),
                TokenOutcome::Rejected => a matches CallbackAction::Redirect(p) && p@ == login_error(
                    "token_request_failed"@,
                ),
                TokenOutcome::Unparsable => a matches CallbackAction::Redirect(p) && p@ == login_error(
                    "token_parse_failed"@,
                ),
                TokenOutcome::Tokens(tok) => final(self).access_token == tok.access_token
                    && final(self).refresh_token == tok.refresh_token && (a matches CallbackAction::FetchProfile {
                    access_token,
                } && access_token == tok.access_token),
            },
    {
        match t {
            TokenOutcome::NetworkError => CallbackAction::Redirect(login_error_path("network_error")),
            TokenOutcome::Rejected => CallbackAction::Redirect(login_error_path("token_request_failed")),
            TokenOutcome::Unparsable => CallbackAction::Redirect(login_error_path("token_parse_failed")),
            TokenOutcome::Tokens(tok) => {
                self.access_token = tok.access_token.clone();
                self.refresh_token = tok.refresh_token;
                CallbackAction::FetchProfile { access_token: tok.access_token }
            },
        }
    }

    /// The profile came back: the user is stored with the tokens.
    pub fn on_profile(&mut self, p: Option<SpotifyUserProfile>) -> (a: CallbackAction)
        ensures
            match p {
                None => a matches CallbackAction::Redirect(path) && path@ == login_error(
                    "profile_fetch_failed"@,
                ),
                Some(prof) => final(self).spotify_id == prof.id && (a matches CallbackAction::SaveUser {
                    spotify_id,
                    display_name,
                    access_token,
                    refresh_token,
                } && spotify_id == prof.id && display_name == prof.display_name && access_token
                    == old(self).access_token && refresh_token@ == (match old(self).refresh_token {
                    Some(t) => t@,
                    None => Seq::<char>::empty(),
                })),
            },
    {
        match p {
            None => CallbackAction::Redirect(login_error_path("profile_fetch_failed")),
            Some(prof) => {
                self.spotify_id = prof.id.clone();
                let refresh_token = match &self.refresh_token {
                    Some(t) => t.clone(),
                    None => String::new(),
                };
                CallbackAction::SaveUser {
                    spotify_id: prof.id,
                    display_name: prof.display_name,
                    access_token: self.access_token.clone(),
                    refresh_token,
                }
            },
        }
    }

    /// The user was stored (or not): a session is created next.
    pub fn on_user_saved(&self, ok: bool) -> (a: CallbackAction)
        ensures
            ok ==> (a matches CallbackAction::CreateSession { spotify_id } && spotify_id == self.spotify_id),
            !ok ==> (a matches CallbackAction::Redirect(p) && p@ == login_error("db_error"@)),
    {
        if ok {
            CallbackAction::CreateSession { spotify_id: self.spotify_id.clone() }
        } else {
            CallbackAction::Redirect(login_error_path("db_error"))
        }
    }

    /// The session was stored (or not): its cookie is set next.
    pub fn on_session_saved(&self, ok: bool, session_id: String) -> (a: CallbackAction)
        ensures
            ok ==> (a matches CallbackAction::SetSessionCookie { session_id: sid } && sid == session_id),
            !ok ==> (a matches CallbackAction::Redirect(p) && p@ == login_error("db_error"@)),
    {
        if ok {
            CallbackAction::SetSessionCookie { session_id }
        } else {
            CallbackAction::Redirect(login_error_path("db_error"))
        }
    }
}

/// A state can be redeemed once: after any callback with code and state `s`, whatever came of
/// it, `s` is gone from the store, and a second callback with `s` is sent to `state_mismatch`.
pub proof fn law_state_redeemed_once(
    m: Map<Seq<char>, String>,
    code: String,
    s: String,
    code2: String,
    s2: String,
)
    requires
        s2@ == s@,
    ensures
        !redeem_spec(m, Some(code), Some(s)).0.contains_key(s@),
        redeem_spec(redeem_spec(m, Some(code), Some(s)).0, Some(code2), Some(s2)).1 == Err::<(String, String), Seq<char>>(
            login_error("state_mismatch"@),
        ),
{
}

/// A callback whose state was never issued, or was already redeemed, never exchanges a code.
pub proof fn law_unknown_state_is_refused(m: Map<Seq<char>, String>, state: Seq<char>)
    requires
        !m.contains_key(state),
    ensures
        taken_spec(m, state) is None,
{
}

} // verus!
