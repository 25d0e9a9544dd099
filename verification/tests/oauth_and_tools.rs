use finance_tracker::forms::{AuthRequest, CreateCategoryForm};
use finance_tracker::migrate::{after_bind, after_lookup, connect_failed, MigrateStep};
use finance_tracker::oauth::{
    authorization_reply, authorization_request, kind_of_provider, provider_user_id, oauth_env_keys, oauth_scopes, oauth_settings,
    plan_authorization, CallbackAction, CallbackEvent, CallbackStage, GitHubUser, GoogleUser, OAuthCallback,
    ProviderKind, ProviderProfile,
};
use finance_tracker::pages::{category_created_reply, new_category};
use finance_tracker::reply::Reply;

#[test]
fn env_keys_are_upper_case() {
    let k = oauth_env_keys("github");
    assert_eq!(k.client_id, "GITHUB_CLIENT_ID");
    assert_eq!(k.client_secret, "GITHUB_CLIENT_SECRET");
    assert_eq!(k.redirect_url, "GITHUB_REDIRECT_URL");
}

#[test]
fn settings_need_id_secret_and_known_provider() {
    let s = |p: &str, id: bool, secret: bool, redirect: Option<&str>| {
        oauth_settings(
            p,
            if id { Some("id".to_string()) } else { None },
            if secret { Some("secret".to_string()) } else { None },
            redirect.map(|r| r.to_string()),
        )
    };
    assert!(s("github", false, true, None).is_none());
    assert!(s("github", true, false, None).is_none());
    assert!(s("gitlab", true, true, None).is_none());
    let g = s("github", true, true, None).unwrap();
    assert_eq!(g.auth_url, "https://github.com/login/oauth/authorize");
    assert_eq!(g.token_url, "https://github.com/login/oauth/access_token");
    assert_eq!(g.redirect_url, "http://localhost:8000/auth/github/callback");
    assert_eq!(g.client_id, "id");
    assert_eq!(g.client_secret, "secret");
    let go = s("google", true, true, Some("https://example.org/cb")).unwrap();
    assert_eq!(go.auth_url, "https://accounts.google.com/o/oauth2/v2/auth");
    assert_eq!(go.token_url, "https://oauth2.googleapis.com/token");
    assert_eq!(go.redirect_url, "https://example.org/cb");
}

#[test]
fn scopes_and_plan() {
    assert_eq!(oauth_scopes("google"), vec!["email".to_string(), "profile".to_string()]);
    assert_eq!(oauth_scopes("github"), vec!["user:email".to_string()]);
    assert!(oauth_scopes("other").is_empty());
    assert!(matches!(plan_authorization("github", None), Err(Reply::Status(404))));
    let settings = oauth_settings("github", Some("i".to_string()), Some("s".to_string()), None);
    match plan_authorization("github", settings) {
        Ok(p) => assert_eq!(p.scopes, vec!["user:email".to_string()]),
        Err(_) => panic!("expected a plan"),
    }
    assert!(matches!(authorization_reply(true, true, "https://x".to_string()), Reply::Redirect(u) if u == "https://x"));
    assert!(matches!(authorization_reply(true, false, "https://x".to_string()), Reply::Status(500)));
    assert_eq!(kind_of_provider("google"), Some(ProviderKind::Google));
    assert_eq!(kind_of_provider("GitHub"), None);
}

#[test]
fn provider_user_ids() {
    let id = provider_user_id(ProviderProfile::GitHub(GitHubUser { id: 94795120, login: None }));
    assert_eq!(id, "94795120");
    let id = provider_user_id(ProviderProfile::GitHub(GitHubUser { id: -3, login: Some("octo".to_string()) }));
    assert_eq!(id, "-3");
    let id = provider_user_id(ProviderProfile::Google(GoogleUser {
        id: "1077".to_string(),
        email: Some("a@b.c".to_string()),
    }));
    assert_eq!(id, "1077");
}

fn begin(state: Option<&str>, provider_in_session: Option<&str>, configured: bool) -> (OAuthCallback, CallbackAction) {
    OAuthCallback::begin(
        state.map(|s| s.to_string()),
        provider_in_session.map(|s| s.to_string()),
        AuthRequest { code: "the-code".to_string(), state: "xyz".to_string() },
        "github".to_string(),
        configured,
    )
}

#[test]
fn callback_rejects_foreign_state() {
    assert!(matches!(begin(Some("abc"), Some("github"), true).1, CallbackAction::Respond(Reply::Status(400))));
    assert!(matches!(begin(None, Some("github"), true).1, CallbackAction::Respond(Reply::Status(400))));
    assert!(matches!(begin(Some("xyz"), Some("google"), true).1, CallbackAction::Respond(Reply::Status(400))));
    assert!(matches!(begin(Some("xyz"), Some("github"), false).1, CallbackAction::Respond(Reply::Status(404))));
}

#[test]
fn callback_for_known_account() {
    let (mut cb, a) = begin(Some("xyz"), Some("github"), true);
    assert!(matches!(a, CallbackAction::ExchangeCode(c) if c == "the-code"));
    match cb.step(CallbackEvent::Token(Some("tok".to_string()))) {
        CallbackAction::FetchProfile(req) => {
            assert_eq!(req.kind, ProviderKind::GitHub);
            assert_eq!(req.url, "https://api.github.com/user");
            assert_eq!(req.authorization, "Bearer tok");
            assert_eq!(req.user_agent.as_deref(), Some("lyksos-finance-app"));
        }
        _ => panic!("expected a profile request"),
    }
    let profile = ProviderProfile::GitHub(GitHubUser { id: 42, login: Some("octo".to_string()) });
    match cb.step(CallbackEvent::Profile(Some(profile))) {
        CallbackAction::FindAccount { provider, provider_id } => {
            assert_eq!(provider, "github");
            assert_eq!(provider_id, "42");
        }
        _ => panic!("expected an account lookup"),
    }
    assert!(matches!(cb.step(CallbackEvent::Account(Ok(Some(5)))), CallbackAction::SaveSession(5)));
    assert!(matches!(
        cb.step(CallbackEvent::SessionSaved(true)),
        CallbackAction::Respond(Reply::Redirect(p)) if p == "/"
    ));
    assert!(cb.stage == CallbackStage::Finished);
}

#[test]
fn callback_refuses_unbound_identity() {
    let (mut cb, _) = begin(Some("xyz"), Some("github"), true);
    cb.step(CallbackEvent::Token(Some("tok".to_string())));
    let profile = ProviderProfile::GitHub(GitHubUser { id: 94795120, login: Some("alice".to_string()) });
    cb.step(CallbackEvent::Profile(Some(profile)));
    match cb.step(CallbackEvent::Account(Ok(None))) {
        CallbackAction::Refuse { warning, reply } => {
            assert_eq!(warning, "Unbound OAuth user tried to login: github - 94795120");
            assert!(matches!(reply, Reply::Status(403)));
        }
        _ => panic!("expected a refusal"),
    }
    assert!(cb.stage == CallbackStage::Finished);
    assert!(matches!(cb.step(CallbackEvent::SessionSaved(true)), CallbackAction::Respond(Reply::Status(500))));
}

#[test]
fn callback_failures_are_server_errors() {
    let (mut cb, _) = begin(Some("xyz"), Some("github"), true);
    assert!(matches!(cb.step(CallbackEvent::Token(None)), CallbackAction::Respond(Reply::Status(500))));
    let (mut cb, _) = begin(Some("xyz"), Some("github"), true);
    cb.step(CallbackEvent::Token(Some("t".to_string())));
    cb.step(CallbackEvent::Profile(Some(ProviderProfile::GitHub(GitHubUser { id: 1, login: None }))));
    assert!(matches!(cb.step(CallbackEvent::Account(Err(()))), CallbackAction::Respond(Reply::Status(500))));
    let (mut cb, _) = begin(Some("xyz"), Some("github"), true);
    assert!(matches!(cb.step(CallbackEvent::SessionSaved(true)), CallbackAction::Respond(Reply::Status(500))));
}

#[test]
fn categories_get_upper_case_types() {
    let c = new_category(&CreateCategoryForm { name: "Salary".to_string(), c_type: "income".to_string() }, 3);
    assert_eq!(c.name, "Salary");
    assert_eq!(c.c_type, "INCOME");
    assert_eq!(c.user_id, 3);
    let c = new_category(&CreateCategoryForm { name: "Food".to_string(), c_type: "Expense".to_string() }, 3);
    assert_eq!(c.c_type, "EXPENSE");
    assert!(matches!(category_created_reply(), Reply::Redirect(p) if p == "/categories"));
}

#[test]
fn migration_messages() {
    assert!(matches!(after_lookup(1, Ok(Some(1))), MigrateStep::Bind(1)));
    match after_lookup(12, Ok(None)) {
        MigrateStep::Finish(x) => {
            assert_eq!(x.message, "Error: User with ID 12 not found.");
            assert!(x.to_stderr);
            assert_eq!(x.code, 1);
        }
        _ => panic!("expected the end"),
    }
    match after_lookup(12, Err("disk I/O error".to_string())) {
        MigrateStep::Finish(x) => assert_eq!(x.message, "Database error while searching for user: disk I/O error"),
        _ => panic!("expected the end"),
    }
    let x = after_bind(1, "github", "94795120", Ok(()));
    assert_eq!(x.message, "Successfully bound user ID 1 to github ID '94795120'.");
    assert!(!x.to_stderr);
    assert_eq!(x.code, 0);
    let x = after_bind(1, "github", "94795120", Err("UNIQUE constraint failed".to_string()));
    assert_eq!(x.message, "Failed to bind account: UNIQUE constraint failed");
    assert_eq!(x.code, 1);
    assert_eq!(connect_failed().message, "Failed to connect to the database. Ensure 'finance.db' exists.");
}

fn is_csrf_state(s: &str) -> bool {
    s.len() == 22
        && s.chars().all(|c| c.is_ascii_alphanumeric() || c == '-' || c == '_')
        && matches!(s.chars().last(), Some('A' | 'Q' | 'g' | 'w'))
}

#[test]
fn authorization_url_carries_client_state_and_scopes() {
    let settings = oauth_settings("github", Some("client-1".to_string()), Some("secret".to_string()), None);
    let plan = plan_authorization("github", settings).ok().unwrap();
    let (url, state) = authorization_request(&plan).unwrap();
    assert!(is_csrf_state(&state), "{}", state);
    assert!(url.starts_with("https://github.com/login/oauth/authorize?response_type=code&client_id=client-1&"));
    assert!(url.contains(&format!("state={}", state)));
    assert!(url.contains("redirect_uri=http%3A%2F%2Flocalhost%3A8000%2Fauth%2Fgithub%2Fcallback"));
    assert!(url.contains("scope=user%3Aemail"));
    assert!(!url.contains("secret"));
    let (_, other) = authorization_request(&plan).unwrap();
    assert_ne!(state, other);
}

#[test]
fn authorization_url_needs_a_redirect_url() {
    let settings = oauth_settings(
        "google",
        Some("c".to_string()),
        Some("s".to_string()),
        Some("not a url".to_string()),
    );
    let plan = plan_authorization("google", settings).ok().unwrap();
    assert!(authorization_request(&plan).is_none());
}
