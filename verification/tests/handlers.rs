use chhoto_url::reply::{
    STATUS_BAD_REQUEST, STATUS_CREATED, STATUS_INTERNAL_SERVER_ERROR, STATUS_NOT_FOUND, STATUS_OK,
    STATUS_PERMANENT_REDIRECT, STATUS_TEMPORARY_REDIRECT, STATUS_UNAUTHORIZED,
};
use chhoto_url::services::delete::{delete_link, delete_link_start, logout};
use chhoto_url::services::get::{
    backend_config, getall, getall_start, getconfig, link_handler, link_handler_start, siteurl,
    version, whoami,
};
use chhoto_url::services::put::{edit_link, edit_link_start};
use chhoto_url::services::{Connection, Plan};
use chhoto_url::{Auth, Body, ChhotoError, Config, JSONResponse, Reply};

const RUNNING: &str = "6.2.1";

fn default_config() -> Config {
    Config {
        site_url: Some(String::from("https://mydomain.com")),
        public_mode: false,
        public_mode_expiry_delay: None,
        use_temp_redirect: false,
        allowed_protocols: Vec::from(["http", "https", "ftp", "magnet"].map(|s| s.to_string())),
        slug_style: String::from("Pair"),
        slug_length: 8,
        try_longer_slug: false,
        allow_capital_letters: false,
        disable_frontend: true,
        custom_landing_directory: None,
        cache_control_header: None,
        frontend_page_size: 10,
    }
}

fn refusal(reason: &str) -> JSONResponse {
    JSONResponse { success: false, error: true, reason: String::from(reason) }
}

fn missing() -> Auth {
    Auth::Missing { result: refusal("API key validation failed.") }
}

fn text_of(r: &Reply) -> String {
    match &r.body {
        Body::Text(s) => s.clone(),
        _ => panic!("not a text reply"),
    }
}

fn json_of(r: &Reply) -> (bool, bool, String) {
    match &r.body {
        Body::Json(j) => (j.success, j.error, j.reason.clone()),
        _ => panic!("not a JSON reply"),
    }
}

fn plan_status<Q>(p: Plan<Q>) -> Option<u16> {
    match p {
        Plan::Respond(r) => Some(r.status),
        Plan::Consult(_) => None,
    }
}

#[test]
fn basic_site_config() {
    let conf = default_config();

    let resp = siteurl(&conf);
    assert_eq!(text_of(&resp), conf.site_url.clone().unwrap());

    let resp = whoami(&conf, &missing());
    assert_eq!(text_of(&resp), "nobody");
    let resp = whoami(&conf, &Auth::ValidAPIKey);
    assert_eq!(text_of(&resp), "admin");

    let resp = version(RUNNING);
    assert!(text_of(&resp).starts_with(&format!("Chhoto URL v{RUNNING}")));

    let resp = getconfig(Auth::ValidAPIKey, &conf, RUNNING);
    assert!((200..300).contains(&resp.status));
    match resp.body {
        Body::Config(c) => {
            assert!(c.version.starts_with(RUNNING));
            assert_eq!(c.slug_length, 8);
        },
        _ => panic!("not a configuration reply"),
    }
}

#[test]
fn auth_verification() {
    let conf = default_config();

    let auth = missing();
    assert_eq!(plan_status(getall_start(&auth, "")), Some(401));
    let resp = getall(missing(), Ok(String::from("[]")));
    assert_eq!(resp.status, 401);
    assert_eq!(text_of(&resp), "Unauthorized");

    let invalid = Auth::InvalidAPIKey { result: refusal("API validation failed.") };
    let body = "{\"shortlink\":\"test2\",\"longlink\":\"https://edited-test2.com\",\"reset_hits\":false}";
    match edit_link_start(&invalid, body) {
        Plan::Respond(r) => {
            assert_eq!(r.status, 401);
            assert_eq!(json_of(&r), (false, true, String::from("API validation failed.")));
        },
        Plan::Consult(_) => panic!("an invalid key must not reach the store"),
    }

    assert_eq!(plan_status(delete_link_start(&auth, "link", &conf)), Some(401));

    let resp = getconfig(missing(), &conf, RUNNING);
    assert_eq!(resp.status, 401);
}

#[test]
fn refused_requests_never_reach_the_store() {
    let conf = default_config();
    let invalid = Auth::InvalidAPIKey { result: refusal("Invalid API key") };
    for auth in [missing(), invalid] {
        assert!(matches!(getall_start(&auth, "page=1"), Plan::Respond(_)));
        assert!(matches!(edit_link_start(&auth, "{}"), Plan::Respond(_)));
        assert!(matches!(delete_link_start(&auth, "abc", &conf), Plan::Respond(_)));
    }
    for auth in [Auth::ValidAPIKey, Auth::ValidSession] {
        assert!(matches!(getall_start(&auth, "page=1"), Plan::Consult(_)));
        assert!(matches!(edit_link_start(&auth, "{}"), Plan::Consult(_)));
        assert!(matches!(delete_link_start(&auth, "abc", &conf), Plan::Consult(_)));
    }
}

#[test]
fn store_requests_carry_what_was_asked() {
    let mut conf = default_config();
    conf.allow_capital_letters = true;
    match delete_link_start(&Auth::ValidSession, "AbC", &conf) {
        Plan::Consult(q) => {
            assert_eq!(q.shortlink, "AbC");
            assert!(q.allow_capital_letters);
            assert_eq!(q.connection(), Connection::Writer);
        },
        Plan::Respond(_) => panic!("a session must reach the store"),
    }
    match edit_link_start(&Auth::ValidAPIKey, "{\"shortlink\":\"a\"}") {
        Plan::Consult(q) => {
            assert_eq!(q.req, "{\"shortlink\":\"a\"}");
            assert_eq!(q.connection(), Connection::Writer);
        },
        Plan::Respond(_) => panic!("an API key must reach the store"),
    }
    match getall_start(&Auth::ValidAPIKey, "page_after=x&page_size=5") {
        Plan::Consult(q) => {
            assert_eq!(q.query, "page_after=x&page_size=5");
            assert_eq!(q.connection(), Connection::Reader);
        },
        Plan::Respond(_) => panic!("an API key must reach the store"),
    }
    let q = link_handler_start("xyz");
    assert_eq!(q.shortlink, "xyz");
    assert_eq!(q.connection(), Connection::Reader);
}

#[test]
fn refusal_ignores_store_outcome() {
    let invalid = || Auth::InvalidAPIKey { result: refusal("Invalid API key") };
    let r = delete_link(invalid(), "abc", Ok(()));
    assert_eq!(r.status, STATUS_UNAUTHORIZED);
    assert_eq!(json_of(&r), (false, true, String::from("Invalid API key")));
    let r = delete_link(missing(), "abc", Ok(()));
    assert_eq!(r.status, STATUS_UNAUTHORIZED);
    assert_eq!(text_of(&r), "Not logged in!");
    let r = edit_link(invalid(), Ok(()));
    assert_eq!(r.status, STATUS_UNAUTHORIZED);
    assert_eq!(json_of(&r), (false, true, String::from("Invalid API key")));
    let r = getall(invalid(), Ok(String::from("[]")));
    assert_eq!(r.status, STATUS_UNAUTHORIZED);
    assert_eq!(text_of(&r), "Invalid API key");
}

#[test]
fn delete_with_api_key() {
    let r = delete_link(Auth::ValidAPIKey, "abc", Ok(()));
    assert_eq!(r.status, STATUS_OK);
    assert_eq!(json_of(&r), (true, false, String::from("Deleted abc")));
    let r = delete_link(Auth::ValidAPIKey, "abc", Err(ChhotoError::ServerError));
    assert_eq!(r.status, STATUS_INTERNAL_SERVER_ERROR);
    assert_eq!(
        json_of(&r),
        (false, true, String::from("Something went wrong when deleting the link."))
    );
    let r = delete_link(
        Auth::ValidAPIKey,
        "abc",
        Err(ChhotoError::ClientError { reason: String::from("The shortlink was not found.") }),
    );
    assert_eq!(r.status, STATUS_NOT_FOUND);
    assert_eq!(json_of(&r), (false, true, String::from("The shortlink was not found.")));
}

#[test]
fn delete_with_session() {
    let r = delete_link(Auth::ValidSession, "abc", Ok(()));
    assert_eq!(r.status, STATUS_OK);
    assert_eq!(text_of(&r), "Deleted abc");
    let r = delete_link(Auth::ValidSession, "abc", Err(ChhotoError::ServerError));
    assert_eq!(r.status, STATUS_NOT_FOUND);
    assert_eq!(text_of(&r), "Not found!");
    let r = delete_link(
        Auth::ValidSession,
        "abc",
        Err(ChhotoError::ClientError { reason: String::from("gone") }),
    );
    assert_eq!(r.status, STATUS_NOT_FOUND);
    assert_eq!(text_of(&r), "Not found!");
}

#[test]
fn edit_outcomes() {
    let r = edit_link(Auth::ValidSession, Ok(()));
    assert_eq!(r.status, STATUS_CREATED);
    assert_eq!(json_of(&r), (true, false, String::from("Edit was successful.")));
    let r = edit_link(Auth::ValidAPIKey, Err(ChhotoError::ServerError));
    assert_eq!(r.status, STATUS_INTERNAL_SERVER_ERROR);
    assert_eq!(
        json_of(&r),
        (false, true, String::from("Something went wrong when editing the link."))
    );
    let r = edit_link(
        Auth::ValidAPIKey,
        Err(ChhotoError::ClientError { reason: String::from("Invalid long URL.") }),
    );
    assert_eq!(r.status, STATUS_BAD_REQUEST);
    assert_eq!(json_of(&r), (false, true, String::from("Invalid long URL.")));
}

#[test]
fn listing_outcomes() {
    let r = getall(Auth::ValidSession, Ok(String::from("[{\"shortlink\":\"a\"}]")));
    assert_eq!(r.status, STATUS_OK);
    match r.body {
        Body::JsonText(s) => assert_eq!(s, "[{\"shortlink\":\"a\"}]"),
        _ => panic!("not a JSON listing"),
    }
    let r = getall(Auth::ValidAPIKey, Err(ChhotoError::ServerError));
    assert_eq!(r.status, STATUS_INTERNAL_SERVER_ERROR);
    assert_eq!(text_of(&r), "Something went wrong while loading the links.");
    let r = getall(
        Auth::ValidAPIKey,
        Err(ChhotoError::ClientError { reason: String::from("bad page size") }),
    );
    assert_eq!(r.status, STATUS_BAD_REQUEST);
    assert_eq!(text_of(&r), "bad page size");
}

#[test]
fn roles() {
    let mut conf = default_config();
    assert_eq!(text_of(&whoami(&conf, &Auth::ValidSession)), "admin");
    assert_eq!(text_of(&whoami(&conf, &Auth::InvalidAPIKey { result: refusal("x") })), "nobody");
    conf.public_mode = true;
    assert_eq!(text_of(&whoami(&conf, &missing())), "public");
    assert_eq!(text_of(&whoami(&conf, &Auth::ValidAPIKey)), "admin");
    assert_eq!(whoami(&conf, &missing()).status, STATUS_OK);
}

#[test]
fn siteurl_unset() {
    let mut conf = default_config();
    conf.site_url = None;
    let r = siteurl(&conf);
    assert_eq!(r.status, STATUS_OK);
    assert_eq!(text_of(&r), "unset");
}

#[test]
fn version_reply_text() {
    let r = version("1.2.3");
    assert_eq!(r.status, STATUS_OK);
    assert_eq!(text_of(&r), "Chhoto URL v1.2.3");
}

#[test]
fn getconfig_in_public_mode() {
    let mut conf = default_config();
    conf.public_mode = true;
    conf.public_mode_expiry_delay = Some(3600);
    let r = getconfig(missing(), &conf, RUNNING);
    assert_eq!(r.status, STATUS_OK);
    match r.body {
        Body::Config(c) => {
            assert_eq!(c.version, RUNNING);
            assert!(c.public_mode);
            assert_eq!(c.public_mode_expiry_delay, 3600);
            assert_eq!(c.allowed_protocols, vec!["http", "https", "ftp", "magnet"]);
            assert_eq!(c.site_url, Some(String::from("https://mydomain.com")));
            assert_eq!(c.slug_style, "Pair");
            assert_eq!(c.frontend_page_size, 10);
        },
        _ => panic!("not a configuration reply"),
    }
}

#[test]
fn getconfig_refusal_carries_body() {
    let conf = default_config();
    let r = getconfig(Auth::InvalidAPIKey { result: refusal("Invalid API key") }, &conf, RUNNING);
    assert_eq!(r.status, STATUS_UNAUTHORIZED);
    assert_eq!(json_of(&r), (false, true, String::from("Invalid API key")));
}

#[test]
fn backend_config_defaults_expiry_to_zero() {
    let conf = default_config();
    let b = backend_config(&conf, RUNNING);
    assert_eq!(b.public_mode_expiry_delay, 0);
    assert_eq!(b.slug_length, 8);
    assert!(!b.try_longer_slug);
    assert!(!b.allow_capital_letters);
}

#[test]
fn link_redirects() {
    let mut conf = default_config();
    let r = link_handler(&conf, Some(String::from("https://example.com")));
    assert_eq!(r.status, STATUS_PERMANENT_REDIRECT);
    match r.body {
        Body::Redirect(l) => assert_eq!(l, "https://example.com"),
        _ => panic!("not a redirect"),
    }
    conf.use_temp_redirect = true;
    let r = link_handler(&conf, Some(String::from("https://example.com")));
    assert_eq!(r.status, STATUS_TEMPORARY_REDIRECT);
    let r = link_handler(&conf, None);
    assert_eq!(r.status, STATUS_NOT_FOUND);
    assert!(matches!(r.body, Body::NotFoundPage));
}

#[test]
fn logout_outcomes() {
    let r = logout(true);
    assert_eq!(r.status, STATUS_OK);
    assert_eq!(text_of(&r), "Logged out!");
    let r = logout(false);
    assert_eq!(r.status, STATUS_UNAUTHORIZED);
    assert_eq!(text_of(&r), "You don't seem to be logged in.");
}
