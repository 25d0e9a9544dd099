//! Signing in with an OAuth provider (GitHub or Google): the provider's
//! settings, the authorization request, and the callback that signs in the
//! account bound to the provider's user.

use vstd::prelude::*;

use oauth2::basic::BasicClient;
use oauth2::{AuthUrl, ClientId, ClientSecret, CsrfToken, RedirectUrl, Scope, TokenUrl};

use crate::forms::AuthRequest;
use crate::reply::{is_redirect_to, is_status, redirect_to, Reply};
use crate::text::{all_ascii, ascii_upper, same_text, signed_decimal, signed_decimal_text, spec_to_uppercase, to_uppercase};

verus! {

/// The OAuth providers the tracker knows.
#[derive(Clone, Copy, Debug, PartialEq, Eq, Structural)]
pub enum ProviderKind {
    GitHub,
    Google,
}

/// The provider a path segment names.
pub open spec fn provider_kind(p: Seq<char>) -> Option<ProviderKind> {
    if p == "github"@ {
        Some(ProviderKind::GitHub)
    } else if p == "google"@ {
        Some(ProviderKind::Google)
    } else {
        None
    }
}

/// The provider named by `provider`, if it is one the tracker knows.
pub fn kind_of_provider(provider: &str) -> (k: Option<ProviderKind>)
    ensures
        k == provider_kind(provider@),
{
    if same_text(provider, "github") {
        Some(ProviderKind::GitHub)
    } else if same_text(provider, "google") {
        Some(ProviderKind::Google)
    } else {
        None
    }
}

/// The names of the environment variables that configure a provider.
pub struct OAuthEnvKeys {
    pub client_id: String,
    pub client_secret: String,
    pub redirect_url: String,
}

/// `<PROVIDER>_CLIENT_ID`, `<PROVIDER>_CLIENT_SECRET` and `<PROVIDER>_REDIRECT_URL`,
/// the provider's name upper-cased.
pub fn oauth_env_keys(provider: &str) -> (k: OAuthEnvKeys)
    ensures
        k.client_id@ == spec_to_uppercase(provider@) + "_CLIENT_ID"@,
        k.client_secret@ == spec_to_uppercase(provider@) + "_CLIENT_SECRET"@,
        k.redirect_url@ == spec_to_uppercase(provider@) + "_REDIRECT_URL"@,
        all_ascii(provider@) ==> k.client_id@ == ascii_upper(provider@) + "_CLIENT_ID"@,
        all_ascii(provider@) ==> k.client_secret@ == ascii_upper(provider@) + "_CLIENT_SECRET"@,
        all_ascii(provider@) ==> k.redirect_url@ == ascii_upper(provider@) + "_REDIRECT_URL"@,
{
    let upper = to_uppercase(provider);
    let mut client_id = upper.clone();
    client_id.append("_CLIENT_ID");
    let mut client_secret = upper.clone();
    client_secret.append("_CLIENT_SECRET");
    let mut redirect_url = upper;
    redirect_url.append("_REDIRECT_URL");
    OAuthEnvKeys { client_id, client_secret, redirect_url }
}

/// Everything needed to talk to a provider.
pub struct OAuthSettings {
    pub client_id: String,
    pub client_secret: String,
    pub auth_url: String,
    pub token_url: String,
    pub redirect_url: String,
}

pub open spec fn auth_url_of(k: ProviderKind) -> Seq<char> {
    match k {
        ProviderKind::GitHub => "https://github.com/login/oauth/authorize"@,
        ProviderKind::Google => "https://accounts.google.com/o/oauth2/v2/auth"@,
    }
}

pub open spec fn token_url_of(k: ProviderKind) -> Seq<char> {
    match k {
        ProviderKind::GitHub => "https://github.com/login/oauth/access_token"@,
        ProviderKind::Google => "https://oauth2.googleapis.com/token"@,
    }
}

/// The callback address used when none is configured.
pub open spec fn default_redirect_url(provider: Seq<char>) -> Seq<char> {
    "http://localhost:8000/auth/"@ + provider + "/callback"@
}

/// A provider's settings from its configured values: present exactly when the
/// client id and secret are configured and the provider is known.
pub fn oauth_settings(
    provider: &str,
    client_id: Option<String>,
    client_secret: Option<String>,
    redirect_url: Option<String>,
) -> (r: Option<OAuthSettings>)
    ensures
        r.is_some() <==> client_id.is_some() && client_secret.is_some() && provider_kind(provider@).is_some(),
        r matches Some(s) ==> {
            &&& s.client_id@ == client_id->0@
            &&& s.client_secret@ == client_secret->0@
            &&& s.auth_url@ == auth_url_of(provider_kind(provider@)->0)
            &&& s.token_url@ == token_url_of(provider_kind(provider@)->0)
            &&& s.redirect_url@ == match redirect_url {
                Some(u) => u@,
                None => default_redirect_url(provider@),
            }
            &&& redirect_url is None ==> s.redirect_url@ == "http://localhost:8000/auth/"@ + provider@ + "/callback"@
        },
{
    let id = client_id?;
    let secret = client_secret?;
    let kind = kind_of_provider(provider)?;
    let (auth_url, token_url) = match kind {
        ProviderKind::GitHub => (
            "https://github.com/login/oauth/authorize".to_owned(),
            "https://github.com/login/oauth/access_token".to_owned(),
        ),
        ProviderKind::Google => (
            "https://accounts.google.com/o/oauth2/v2/auth".to_owned(),
            "https://oauth2.googleapis.com/token".to_owned(),
        ),
    };
    let redirect = match redirect_url {
        Some(u) => u,
        None => {
            let mut u = "http://localhost:8000/auth/".to_owned();
            u.append(provider);
            u.append("/callback");
            u
        },
    };
    Some(OAuthSettings { client_id: id, client_secret: secret, auth_url, token_url, redirect_url: redirect })
}

/// The permissions asked of a provider.
pub open spec fn scopes_of(provider: Seq<char>) -> Seq<Seq<char>> {
    match provider_kind(provider) {
        Some(ProviderKind::Google) => seq!["email"@, "profile"@],
        Some(ProviderKind::GitHub) => seq!["user:email"@],
        None => Seq::empty(),
    }
}

/// The permissions to ask of `provider`.
pub fn oauth_scopes(provider: &str) -> (v: Vec<String>)
    ensures
        v@.map_values(|s: String| s@) == scopes_of(provider@),
{
    let mut v: Vec<String> = Vec::new();
    match kind_of_provider(provider) {
        Some(ProviderKind::Google) => {
            v.push("email".to_owned());
            v.push("profile".to_owned());
        },
        Some(ProviderKind::GitHub) => {
            v.push("user:email".to_owned());
        },
        None => {},
    }
    assert(v@.map_values(|s: String| s@) =~= scopes_of(provider@));
    v
}

/// How to send a user to a provider to authorize the tracker.
pub struct AuthorizationPlan {
    pub settings: OAuthSettings,
    pub scopes: Vec<String>,
}

/// The start of an OAuth sign-in: an unconfigured provider is not found.
pub fn plan_authorization(provider: &str, settings: Option<OAuthSettings>) -> (r: Result<AuthorizationPlan, Reply>)
    ensures
        settings.is_none() ==> (r matches Err(x) && is_status(x, 404)),
        settings.is_some() ==> (r matches Ok(p) && p.settings == settings->0 && p.scopes@.map_values(
            |s: String| s@,
        ) == scopes_of(provider@)),
{
    match settings {
        None => Err(Reply::Status(404)),
        Some(s) => Ok(AuthorizationPlan { settings: s, scopes: oauth_scopes(provider) }),
    }
}

/// The answer once the CSRF state and the provider were (or failed to be) kept
/// in the session: off to the provider's authorization page.
pub fn authorization_reply(state_saved: bool, provider_saved: bool, auth_url: String) -> (r: Reply)
    ensures
        state_saved && provider_saved ==> r == Reply::Redirect(auth_url),
        !(state_saved && provider_saved) ==> is_status(r, 500),
{
    if state_saved && provider_saved {
        Reply::Redirect(auth_url)
    } else {
        Reply::Status(500)
    }
}

/// A character of the URL-safe Base64 alphabet.
pub open spec fn b64url_char(c: char) -> bool {
    ('A' <= c && c <= 'Z') || ('a' <= c && c <= 'z') || ('0' <= c && c <= '9') || c == '-' || c == '_'
}

/// A CSRF state as the sign-in makes it: 16 bytes in URL-safe Base64 without
/// padding, 22 characters whose last one carries only two bits.
pub open spec fn csrf_state_text(s: Seq<char>) -> bool {
    &&& s.len() == 22
    &&& forall|i: int| 0 <= i < 21 ==> b64url_char(#[trigger] s[i])
    &&& (s[21] == 'A' || s[21] == 'Q' || s[21] == 'g' || s[21] == 'w')
}

/// A fresh random CSRF state: the secret of `CsrfToken::new_random()`.
/// Claimed of every outcome, from `oauth2`'s source: it is 16 random bytes
/// encoded with `base64::URL_SAFE_NO_PAD`; which bytes is random.
#[verifier::external_body]
fn new_csrf_state() -> (s: String)
    ensures
        csrf_state_text(s@),
{
    CsrfToken::new_random().secret().clone()
}

/// The text of the authorization URL that `oauth2` builds for a `BasicClient`
/// with these client id, authorization, token and redirect URLs, asking for
/// these scopes with this state; `None` when one of the three URLs does not parse.
pub uninterp spec fn spec_authorize_url(
    client_id: Seq<char>,
    auth_url: Seq<char>,
    token_url: Seq<char>,
    redirect_url: Seq<char>,
    scopes: Seq<Seq<char>>,
    state: Seq<char>,
) -> Option<Seq<char>>;

/// Builds the `BasicClient` of `settings` (`AuthUrl::new`, `TokenUrl::new` and
/// `RedirectUrl::new` on its addresses, `None` when one of them fails), then
/// `authorize_url` with the state `state`, `add_scopes` with `scopes`, and
/// `url()`, as text. Claimed: the result is a function of the client id, the
/// three addresses, the scopes and the state (the client secret does not enter
/// the URL).
#[verifier::external_body]
fn authorize_url(settings: &OAuthSettings, scopes: &Vec<String>, state: &str) -> (r: Option<String>)
    ensures
        r.is_some() == spec_authorize_url(
            settings.client_id@,
            settings.auth_url@,
            settings.token_url@,
            settings.redirect_url@,
            scopes@.map_values(|s: String| s@),
            state@,
        ).is_some(),
        r matches Some(u) ==> u@ == spec_authorize_url(
            settings.client_id@,
            settings.auth_url@,
            settings.token_url@,
            settings.redirect_url@,
            scopes@.map_values(|s: String| s@),
            state@,
        )->0,
{
    let client = BasicClient::new(
        ClientId::new(settings.client_id.clone()),
        Some(ClientSecret::new(settings.client_secret.clone())),
        AuthUrl::new(settings.auth_url.clone()).ok()?,
        Some(TokenUrl::new(settings.token_url.clone()).ok()?),
    ).set_redirect_uri(RedirectUrl::new(settings.redirect_url.clone()).ok()?);
    let token = CsrfToken::new(state.to_string());
    let request = client.authorize_url(move || token).add_scopes(scopes.iter().map(|s| Scope::new(s.clone())));
    Some(request.url().0.to_string())
}

/// The authorization URL of `plan` for the state `state`.
pub open spec fn plan_url(plan: AuthorizationPlan, state: Seq<char>) -> Option<Seq<char>> {
    spec_authorize_url(
        plan.settings.client_id@,
        plan.settings.auth_url@,
        plan.settings.token_url@,
        plan.settings.redirect_url@,
        plan.scopes@.map_values(|s: String| s@),
        state,
    )
}

/// Where to send the user to authorize the tracker: the provider's
/// authorization URL for `plan` with a fresh CSRF state, and that state to keep
/// in the session; `None` when one of the plan's addresses is not a URL.
pub fn authorization_request(plan: &AuthorizationPlan) -> (r: Option<(String, String)>)
    ensures
        exists|state: Seq<char>| #[trigger] csrf_state_text(state) && match r {
            Some((url, st)) => st@ == state && plan_url(*plan, state) == Some(url@),
            None => plan_url(*plan, state) is None,
        },
{
    let state = new_csrf_state();
    let url = authorize_url(&plan.settings, &plan.scopes, state.as_str());
    let r = match url {
        Some(u) => Some((u, state)),
        None => None,
    };
    assert(csrf_state_text(state@));
    r
}

/// Whether a callback belongs to the sign-in this session started: the returned
/// state is the one kept in the session, and so is the provider.
pub open spec fn callback_matches(
    session_state: Option<String>,
    session_provider: Option<String>,
    state: Seq<char>,
    provider: Seq<char>,
) -> bool {
    &&& session_state matches Some(s) && s@ == state
    &&& session_provider matches Some(p) && p@ == provider
}

/// The request for the signed-in user's profile at the provider.
pub struct ProfileRequest {
    pub kind: ProviderKind,
    pub url: String,
    pub authorization: String,
    pub user_agent: Option<String>,
}

pub open spec fn profile_url_of(k: ProviderKind) -> Seq<char> {
    match k {
        ProviderKind::GitHub => "https://api.github.com/user"@,
        ProviderKind::Google => "https://www.googleapis.com/oauth2/v2/userinfo"@,
    }
}

/// The profile request for `k` with the access token `token`.
pub open spec fn is_profile_request(req: ProfileRequest, k: ProviderKind, token: Seq<char>) -> bool {
    &&& req.kind == k
    &&& req.url@ == profile_url_of(k)
    &&& req.authorization@ == "Bearer "@ + token
    &&& match k {
        ProviderKind::GitHub => req.user_agent matches Some(a) && a@ == "lyksos-finance-app"@,
        ProviderKind::Google => req.user_agent.is_none(),
    }
}

/// A GitHub profile, as far as the tracker reads it.
pub struct GitHubUser {
    pub id: i64,
    pub login: Option<String>,
}

/// A Google profile, as far as the tracker reads it.
pub struct GoogleUser {
    pub id: String,
    pub email: Option<String>,
}

/// The profile a provider returned.
pub enum ProviderProfile {
    GitHub(GitHubUser),
    Google(GoogleUser),
}

/// The provider's id of the user: the GitHub numeric id in decimal, or the
/// Google id.
pub open spec fn provider_user_id_of(p: ProviderProfile) -> Seq<char> {
    match p {
        ProviderProfile::GitHub(u) => signed_decimal(u.id as int),
        ProviderProfile::Google(u) => u.id@,
    }
}

/// The provider's id of the user of a profile.
pub fn provider_user_id(p: ProviderProfile) -> (r: String)
    ensures
        r@ == provider_user_id_of(p),
{
    match p {
        ProviderProfile::GitHub(u) => signed_decimal_text(u.id),
        ProviderProfile::Google(u) => u.id,
    }
}

/// The warning logged when an identity that no account is bound to signs in:
/// `Unbound OAuth user tried to login: <provider> - <provider id>`.
pub open spec fn unbound_warning(provider: Seq<char>, provider_id: Seq<char>) -> Seq<char> {
    "Unbound OAuth user tried to login: "@ + provider + " - "@ + provider_id
}

/// Where the callback stands.
#[derive(PartialEq, Eq, Structural)]
pub enum CallbackStage {
    AwaitToken,
    AwaitProfile,
    AwaitAccount,
    AwaitSession,
    Finished,
}

/// What the outside world reports back to the callback.
pub enum CallbackEvent {
    /// The access token for the code, or a failed exchange.
    Token(Option<String>),
    /// The user's profile, or a failed request.
    Profile(Option<ProviderProfile>),
    /// The id of the account bound to the provider's id of the user.
    Account(Result<Option<i64>, ()>),
    /// Whether the session could be saved.
    SessionSaved(bool),
}

/// What the callback asks to be done next.
pub enum CallbackAction {
    ExchangeCode(String),
    FetchProfile(ProfileRequest),
    /// Look up the account bound to this identity.
    FindAccount { provider: String, provider_id: String },
    /// Sign this account in.
    SaveSession(i64),
    /// Log this warning and answer with the reply: the identity is bound to no
    /// account, and no account is created for it.
    Refuse { warning: String, reply: Reply },
    Respond(Reply),
}

/// The state of one OAuth callback.
pub struct OAuthCallback {
    pub provider: String,
    pub provider_id: String,
    pub user_id: i64,
    pub stage: CallbackStage,
}

pub open spec fn is_status_action(a: CallbackAction, code: u16) -> bool {
    a matches CallbackAction::Respond(r) && is_status(r, code)
}

/// The transition of the callback on one event: `post` and `a` are the state
/// after it and the action it asks for. An event that does not fit the stage
/// ends the callback with a server error.
pub open spec fn callback_step(pre: OAuthCallback, e: CallbackEvent, post: OAuthCallback, a: CallbackAction) -> bool {
    let fail = is_status_action(a, 500) && post.stage == CallbackStage::Finished;
    &&& post.provider == pre.provider
    &&& match (pre.stage, e) {
        (CallbackStage::AwaitToken, CallbackEvent::Token(None)) => fail,
        (CallbackStage::AwaitToken, CallbackEvent::Token(Some(t))) => match provider_kind(pre.provider@) {
            None => is_status_action(a, 400) && post.stage == CallbackStage::Finished,
            Some(k) => a matches CallbackAction::FetchProfile(req) && is_profile_request(req, k, t@)
                && post.stage == CallbackStage::AwaitProfile,
        },
        (CallbackStage::AwaitProfile, CallbackEvent::Profile(None)) => fail,
        (CallbackStage::AwaitProfile, CallbackEvent::Profile(Some(p))) => {
            &&& post.provider_id@ == provider_user_id_of(p)
            &&& post.stage == CallbackStage::AwaitAccount
            &&& a matches CallbackAction::FindAccount { provider, provider_id } && provider@ == pre.provider@
                && provider_id@ == post.provider_id@
        },
        (CallbackStage::AwaitAccount, CallbackEvent::Account(Err(_))) => fail,
        (CallbackStage::AwaitAccount, CallbackEvent::Account(Ok(Some(id)))) => {
            &&& a == CallbackAction::SaveSession(id)
            &&& post.user_id == id
            &&& post.provider_id == pre.provider_id
            &&& post.stage == CallbackStage::AwaitSession
        },
        (CallbackStage::AwaitAccount, CallbackEvent::Account(Ok(None))) => {
            &&& post.stage == CallbackStage::Finished
            &&& a matches CallbackAction::Refuse { warning, reply } && warning@ == unbound_warning(
                pre.provider@,
                pre.provider_id@,
            ) && is_status(reply, 403)
        },
        (CallbackStage::AwaitSession, CallbackEvent::SessionSaved(true)) => {
            &&& post.stage == CallbackStage::Finished
            &&& a matches CallbackAction::Respond(r) && is_redirect_to(r, "/"@)
        },
        (CallbackStage::AwaitSession, CallbackEvent::SessionSaved(false)) => fail,
        _ => fail,
    }
}

/// How many more events a callback can take at most before it finishes.
pub open spec fn stage_rank(s: CallbackStage) -> int {
    match s {
        CallbackStage::AwaitToken => 3,
        CallbackStage::AwaitProfile => 2,
        CallbackStage::AwaitAccount => 1,
        CallbackStage::AwaitSession => 0,
        CallbackStage::Finished => 0,
    }
}

/// Every step of a callback either finishes it or brings it closer to the end,
/// so a callback ends after at most four events.
pub proof fn lemma_callback_progress(pre: OAuthCallback, e: CallbackEvent, post: OAuthCallback, a: CallbackAction)
    requires
        callback_step(pre, e, post, a),
    ensures
        post.stage == CallbackStage::Finished || stage_rank(post.stage) < stage_rank(pre.stage),
{
}

/// Once the code is exchanged, the profile is asked of the provider the sign-in
/// is for, with the token as bearer: Google's userinfo endpoint for Google, and
/// GitHub's user API, with the app's `User-Agent`, for GitHub. The two
/// addresses differ, so neither provider's token is sent to the other.
pub proof fn lemma_profile_is_asked_of_the_provider(pre: OAuthCallback, t: String, post: OAuthCallback, a: CallbackAction)
    requires
        pre.stage == CallbackStage::AwaitToken,
        callback_step(pre, CallbackEvent::Token(Some(t)), post, a),
    ensures
        pre.provider@ == "google"@ ==> (a matches CallbackAction::FetchProfile(req) && req.kind == ProviderKind::Google
            && req.url@ == "https://www.googleapis.com/oauth2/v2/userinfo"@ && req.authorization@ == "Bearer "@ + t@
            && req.user_agent is None),
        pre.provider@ == "github"@ ==> (a matches CallbackAction::FetchProfile(req) && req.kind == ProviderKind::GitHub
            && req.url@ == "https://api.github.com/user"@ && req.authorization@ == "Bearer "@ + t@
            && req.user_agent is Some && req.user_agent->0@ == "lyksos-finance-app"@),
        "https://www.googleapis.com/oauth2/v2/userinfo"@ != "https://api.github.com/user"@,
{
    reveal_strlit("google");
    reveal_strlit("github");
    reveal_strlit("https://www.googleapis.com/oauth2/v2/userinfo");
    reveal_strlit("https://api.github.com/user");
    assert("google"@[1] != "github"@[1]);
    assert("https://www.googleapis.com/oauth2/v2/userinfo"@[8] != "https://api.github.com/user"@[8]);
}

/// Without a configured redirect address a provider's sign-in returns to that
/// provider's own callback, `http://localhost:8000/auth/<provider>/callback`:
/// the path names the provider itself, so two providers never share one.
pub proof fn lemma_default_callback_is_the_providers_own(p: Seq<char>, q: Seq<char>)
    ensures
        default_redirect_url(p) == "http://localhost:8000/auth/"@ + p + "/callback"@,
        default_redirect_url(p).subrange(27, 27 + p.len() as int) == p,
        p != q ==> default_redirect_url(p) != default_redirect_url(q),
{
    reveal_strlit("http://localhost:8000/auth/");
    reveal_strlit("/callback");
    let pre = "http://localhost:8000/auth/"@;
    let suf = "/callback"@;
    assert(pre.len() == 27);
    assert((pre + p + suf).subrange(27, 27 + p.len() as int) =~= p);
    assert((pre + q + suf).subrange(27, 27 + q.len() as int) =~= q);
    if p != q && default_redirect_url(p) == default_redirect_url(q) {
        assert((pre + p + suf).len() == (pre + q + suf).len());
        assert(p.len() == q.len());
    }
}

/// An identity bound to no account is refused: no account is created for it and
/// no session is opened; the warning names the provider and the identity.
pub proof fn lemma_unbound_identity_is_refused(pre: OAuthCallback, post: OAuthCallback, a: CallbackAction)
    requires
        pre.stage == CallbackStage::AwaitAccount,
        callback_step(pre, CallbackEvent::Account(Ok(None)), post, a),
    ensures
        post.stage == CallbackStage::Finished,
        a matches CallbackAction::Refuse { warning, reply } && warning@ == unbound_warning(
            pre.provider@,
            pre.provider_id@,
        ) && is_status(reply, 403),
{
}

/// A run of a callback: `states[k + 1]` and `actions[k]` follow from `states[k]`
/// on `events[k]`.
pub open spec fn is_callback_run(
    states: Seq<OAuthCallback>,
    events: Seq<CallbackEvent>,
    actions: Seq<CallbackAction>,
) -> bool {
    &&& states.len() == events.len() + 1
    &&& actions.len() == events.len()
    &&& forall|k: int|
        0 <= k < events.len() ==> callback_step(#[trigger] states[k], events[k], states[k + 1], actions[k])
}

proof fn lemma_run_keeps_provider(states: Seq<OAuthCallback>, events: Seq<CallbackEvent>, actions: Seq<CallbackAction>, k: int)
    requires
        is_callback_run(states, events, actions),
        0 <= k < states.len(),
    ensures
        states[k].provider == states[0].provider,
    decreases k,
{
    if k > 0 {
        lemma_run_keeps_provider(states, events, actions, k - 1);
        assert(callback_step(states[k - 1], events[k - 1], states[k], actions[k - 1]));
    }
}

/// A callback that started by exchanging the code signs in only the account
/// bound to the identity the provider returned: when it answers with a
/// redirect to the dashboard, the provider had returned a profile, the action
/// that followed looked up the account of (provider, that profile's id), the
/// lookup found the account `id`, the next action saved a session for `id`, and
/// that session was saved.
pub proof fn lemma_redirect_signs_in_bound_account(
    states: Seq<OAuthCallback>,
    events: Seq<CallbackEvent>,
    actions: Seq<CallbackAction>,
)
    requires
        is_callback_run(states, events, actions),
        states[0].stage == CallbackStage::AwaitToken,
        events.len() > 0,
        actions.last() matches CallbackAction::Respond(r) && is_redirect_to(r, "/"@),
    ensures
        events.len() >= 3,
        ({
            let n = events.len() as int;
            &&& events[n - 3] matches CallbackEvent::Profile(Some(p))
                && states[n - 2].provider_id@ == provider_user_id_of(p)
            &&& actions[n - 3] matches CallbackAction::FindAccount { provider, provider_id }
                && provider@ == states[0].provider@ && provider_id@ == states[n - 2].provider_id@
            &&& events[n - 2] matches CallbackEvent::Account(Ok(Some(id))) && actions[n - 2]
                == CallbackAction::SaveSession(id) && states[n - 1].user_id == id
            &&& events[n - 1] == CallbackEvent::SessionSaved(true)
        }),
{
    let n = events.len() as int;
    assert(callback_step(states[n - 1], events[n - 1], states[n], actions[n - 1]));
    assert(states[n - 1].stage == CallbackStage::AwaitSession);
    assert(n - 1 > 0);
    assert(callback_step(states[n - 2], events[n - 2], states[n - 1], actions[n - 2]));
    assert(states[n - 2].stage == CallbackStage::AwaitAccount);
    assert(n - 2 > 0);
    assert(callback_step(states[n - 3], events[n - 3], states[n - 2], actions[n - 3]));
    assert(states[n - 3].stage == CallbackStage::AwaitProfile);
    lemma_run_keeps_provider(states, events, actions, n - 3);
}

impl OAuthCallback {
    /// Starts a callback: it goes on to exchange the code only when the callback
    /// matches the session's sign-in (else 400) and the provider is configured
    /// (else 404).
    pub fn begin(
        session_state: Option<String>,
        session_provider: Option<String>,
        query: AuthRequest,
        provider: String,
        configured: bool,
    ) -> (r: (OAuthCallback, CallbackAction))
        ensures
            r.0.provider == provider,
            !callback_matches(session_state, session_provider, query.state@, provider@) ==> (
            is_status_action(r.1, 400) && r.0.stage == CallbackStage::Finished),
            callback_matches(session_state, session_provider, query.state@, provider@) && !configured ==> (
            is_status_action(r.1, 404) && r.0.stage == CallbackStage::Finished),
            callback_matches(session_state, session_provider, query.state@, provider@) && configured ==> (
            r.1 == CallbackAction::ExchangeCode(query.code) && r.0.stage == CallbackStage::AwaitToken),
    {
        let state_ok = match &session_state {
            Some(s) => *s == query.state,
            None => false,
        };
        let provider_ok = match &session_provider {
            Some(p) => *p == provider,
            None => false,
        };
        let mut cb = OAuthCallback { provider, provider_id: String::new(), user_id: 0, stage: CallbackStage::Finished };
        if !(state_ok && provider_ok) {
            return (cb, CallbackAction::Respond(Reply::Status(400)));
        }
        if !configured {
            return (cb, CallbackAction::Respond(Reply::Status(404)));
        }
        cb.stage = CallbackStage::AwaitToken;
        (cb, CallbackAction::ExchangeCode(query.code))
    }

    fn fail(&mut self, code: u16) -> (a: CallbackAction)
        ensures
            final(self).provider == old(self).provider,
            final(self).stage == CallbackStage::Finished,
            is_status_action(a, code),
    {
        self.stage = CallbackStage::Finished;
        CallbackAction::Respond(Reply::Status(code))
    }

    /// Advances the callback on `e`.
    pub fn step(&mut self, e: CallbackEvent) -> (a: CallbackAction)
        ensures
            callback_step(*old(self), e, *final(self), a),
    {
        let stage = match self.stage {
            CallbackStage::AwaitToken => CallbackStage::AwaitToken,
            CallbackStage::AwaitProfile => CallbackStage::AwaitProfile,
            CallbackStage::AwaitAccount => CallbackStage::AwaitAccount,
            CallbackStage::AwaitSession => CallbackStage::AwaitSession,
            CallbackStage::Finished => CallbackStage::Finished,
        };
        match (stage, e) {
            (CallbackStage::AwaitToken, CallbackEvent::Token(Some(t))) => {
                match kind_of_provider(self.provider.as_str()) {
                    None => self.fail(400),
                    Some(k) => {
                        let mut authorization = "Bearer ".to_owned();
                        authorization.append(t.as_str());
                        let (url, user_agent) = match k {
                            ProviderKind::GitHub => (
                                "https://api.github.com/user".to_owned(),
                                Some("lyksos-finance-app".to_owned()),
                            ),
                            ProviderKind::Google => (
                                "https://www.googleapis.com/oauth2/v2/userinfo".to_owned(),
                                None,
                            ),
                        };
                        self.stage = CallbackStage::AwaitProfile;
                        CallbackAction::FetchProfile(ProfileRequest { kind: k, url, authorization, user_agent })
                    },
                }
            },
            (CallbackStage::AwaitProfile, CallbackEvent::Profile(Some(p))) => {
                self.provider_id = provider_user_id(p);
                self.stage = CallbackStage::AwaitAccount;
                CallbackAction::FindAccount { provider: self.provider.clone(), provider_id: self.provider_id.clone() }
            },
            (CallbackStage::AwaitAccount, CallbackEvent::Account(Ok(Some(id)))) => {
                self.user_id = id;
                self.stage = CallbackStage::AwaitSession;
                CallbackAction::SaveSession(id)
            },
            (CallbackStage::AwaitAccount, CallbackEvent::Account(Ok(None))) => {
                let mut warning = "Unbound OAuth user tried to login: ".to_owned();
                warning.append(self.provider.as_str());
                warning.append(" - ");
                warning.append(self.provider_id.as_str());
                self.stage = CallbackStage::Finished;
                CallbackAction::Refuse { warning, reply: Reply::Status(403) }
            },
            (CallbackStage::AwaitSession, CallbackEvent::SessionSaved(true)) => {
                self.stage = CallbackStage::Finished;
                CallbackAction::Respond(redirect_to("/"))
            },
            _ => self.fail(500),
        }
    }
}

} // verus!
