use vstd::prelude::*;
use vstd::string::*;
use crate::config::Config;
use crate::reply::{
    json_body_reply, text, text_reply, Body, BodyView, Reply, ReplyView, STATUS_BAD_REQUEST,
    STATUS_INTERNAL_SERVER_ERROR, STATUS_NOT_FOUND, STATUS_OK, STATUS_PERMANENT_REDIRECT,
    STATUS_TEMPORARY_REDIRECT, STATUS_UNAUTHORIZED,
};
use crate::services::{ListRequest, LookupRequest, Plan, PlanView};
use crate::types::{
    copy_opt_string, copy_strings, is_authenticated, opt_text, refusal_body, texts, Auth,
    BackendConfig, BackendConfigView, ChhotoError,
};

verus! {

/// How a listing is refused to a request without valid credentials.
pub open spec fn getall_refusal(auth: Auth) -> ReplyView {
    match auth {
        Auth::InvalidAPIKey { result } => text_reply(STATUS_UNAUTHORIZED, result.reason@),
        _ => text_reply(STATUS_UNAUTHORIZED, "Unauthorized"@),
    }
}

/// The first step of a listing: only authenticated requests reach the
/// store, which is handed the query of the request.
pub open spec fn getall_plan(auth: Auth, query: Seq<char>) -> PlanView<Seq<char>> {
    if is_authenticated(&auth) {
        PlanView::Consult(query)
    } else {
        PlanView::Respond(getall_refusal(auth))
    }
}

/// The reply to a listing, given what the store answered: the links as JSON
/// text, or the reason it could not list them.
pub open spec fn getall_reply(auth: Auth, outcome: Result<String, ChhotoError>) -> ReplyView {
    if is_authenticated(&auth) {
        match outcome {
            Ok(s) => ReplyView { status: STATUS_OK, body: BodyView::JsonText(s@) },
            Err(ChhotoError::ServerError) => text_reply(
                STATUS_INTERNAL_SERVER_ERROR,
                "Something went wrong while loading the links."@,
            ),
            Err(ChhotoError::ClientError { reason }) => text_reply(STATUS_BAD_REQUEST, reason@),
        }
    } else {
        getall_refusal(auth)
    }
}

/// The first step of `GET /api/all`.
pub fn getall_start(auth: &Auth, query: &str) -> (p: Plan<ListRequest>)
    ensures
        p@ == getall_plan(*auth, query@),
{
    match auth {
        Auth::Missing { .. } => Plan::Respond(
            text(STATUS_UNAUTHORIZED, String::from_str("Unauthorized")),
        ),
        Auth::InvalidAPIKey { result } => Plan::Respond(
            text(STATUS_UNAUTHORIZED, result.reason.clone()),
        ),
        _ => Plan::Consult(ListRequest { query: String::from_str(query) }),
    }
}

/// The second step of `GET /api/all`: the reply, given what the store
/// answered to the listing.
pub fn getall(auth: Auth, outcome: Result<String, ChhotoError>) -> (r: Reply)
    ensures
        r@ == getall_reply(auth, outcome),
{
    match auth {
        Auth::Missing { .. } => text(STATUS_UNAUTHORIZED, String::from_str("Unauthorized")),
        Auth::InvalidAPIKey { result } => text(STATUS_UNAUTHORIZED, result.reason),
        _ => match outcome {
            Ok(s) => Reply { status: STATUS_OK, body: Body::JsonText(s) },
            Err(ChhotoError::ServerError) => text(
                STATUS_INTERNAL_SERVER_ERROR,
                String::from_str("Something went wrong while loading the links."),
            ),
            Err(ChhotoError::ClientError { reason }) => text(STATUS_BAD_REQUEST, reason),
        },
    }
}

/// The site address, or `unset` when none is configured.
pub open spec fn siteurl_reply(site_url: Option<Seq<char>>) -> ReplyView {
    match site_url {
        Some(url) => text_reply(STATUS_OK, url),
        None => text_reply(STATUS_OK, "unset"@),
    }
}

/// Answers `GET /api/siteurl`.
pub fn siteurl(config: &Config) -> (r: Reply)
    ensures
        r@ == siteurl_reply(opt_text(config.site_url)),
{
    match &config.site_url {
        Some(url) => text(STATUS_OK, url.clone()),
        None => text(STATUS_OK, String::from_str("unset")),
    }
}

/// The text that names the running version.
pub open spec fn version_text(version: Seq<char>) -> Seq<char> {
    "Chhoto URL v"@ + version
}

/// Answers `GET /api/version`; `running` is the version of the program.
pub fn version(running: &str) -> (r: Reply)
    ensures
        r@ == text_reply(STATUS_OK, version_text(running@)),
{
    text(STATUS_OK, String::from_str("Chhoto URL v").concat(running))
}

/// The role a request acts in: `admin` with valid credentials, otherwise
/// `public` in public mode and `nobody` outside it.
pub open spec fn role(auth: Auth, public_mode: bool) -> Seq<char> {
    if is_authenticated(&auth) {
        "admin"@
    } else if public_mode {
        "public"@
    } else {
        "nobody"@
    }
}

/// Answers `GET /api/whoami`.
pub fn whoami(config: &Config, auth: &Auth) -> (r: Reply)
    ensures
        r@ == text_reply(STATUS_OK, role(*auth, config.public_mode)),
{
    let acting_user = match auth {
        Auth::ValidAPIKey | Auth::ValidSession => String::from_str("admin"),
        _ => {
            if config.public_mode {
                String::from_str("public")
            } else {
                String::from_str("nobody")
            }
        },
    };
    text(STATUS_OK, acting_user)
}

/// The settings that the configuration endpoint reveals, taken from `config`;
/// an unset public-mode expiry delay shows as zero.
pub open spec fn backend_config_view(config: Config, version: Seq<char>) -> BackendConfigView {
    BackendConfigView {
        version,
        allow_capital_letters: config.allow_capital_letters,
        public_mode: config.public_mode,
        public_mode_expiry_delay: match config.public_mode_expiry_delay {
            Some(d) => d,
            None => 0,
        },
        allowed_protocols: texts(config.allowed_protocols@),
        site_url: opt_text(config.site_url),
        slug_style: config.slug_style@,
        slug_length: config.slug_length,
        try_longer_slug: config.try_longer_slug,
        frontend_page_size: config.frontend_page_size,
    }
}

/// Collects the settings that the configuration endpoint reveals.
pub fn backend_config(config: &Config, version: &str) -> (b: BackendConfig)
    ensures
        b@ == backend_config_view(*config, version@),
        b.version@ == version@,
        b.allow_capital_letters == config.allow_capital_letters,
        b.public_mode == config.public_mode,
        config.public_mode_expiry_delay matches Some(d) ==> b.public_mode_expiry_delay == d,
        config.public_mode_expiry_delay is None ==> b.public_mode_expiry_delay == 0,
        b.allowed_protocols@.len() == config.allowed_protocols@.len(),
        forall|i: int|
            0 <= i < b.allowed_protocols@.len() ==> (#[trigger] b.allowed_protocols@[i])@
                == config.allowed_protocols@[i]@,
        config.site_url matches Some(u) ==> (b.site_url matches Some(v) && v@ == u@),
        config.site_url is None ==> b.site_url is None,
        b.slug_style@ == config.slug_style@,
        b.slug_length == config.slug_length,
        b.try_longer_slug == config.try_longer_slug,
        b.frontend_page_size == config.frontend_page_size,
{
    BackendConfig {
        version: String::from_str(version),
        allow_capital_letters: config.allow_capital_letters,
        public_mode: config.public_mode,
        public_mode_expiry_delay: match config.public_mode_expiry_delay {
            Some(d) => d,
            None => 0,
        },
        allowed_protocols: copy_strings(&config.allowed_protocols),
        site_url: copy_opt_string(&config.site_url),
        slug_style: config.slug_style.clone(),
        slug_length: config.slug_length,
        try_longer_slug: config.try_longer_slug,
        frontend_page_size: config.frontend_page_size,
    }
}

/// The configuration is shown to authenticated requests, and to everyone in
/// public mode; others are refused with the body their credentials produced.
pub open spec fn getconfig_reply(auth: Auth, config: Config, version: Seq<char>) -> ReplyView {
    if is_authenticated(&auth) || config.public_mode {
        ReplyView {
            status: STATUS_OK,
            body: BodyView::Config(backend_config_view(config, version)),
        }
    } else {
        json_body_reply(STATUS_UNAUTHORIZED, refusal_body(&auth))
    }
}

/// Answers `GET /api/getconfig`; `version` is the version of the program.
pub fn getconfig(auth: Auth, config: &Config, version: &str) -> (r: Reply)
    ensures
        r@ == getconfig_reply(auth, *config, version@),
        (r.body is Config) <==> (is_authenticated(&auth) || config.public_mode),
        r.body matches Body::Config(c) ==> {
            &&& c.version@ == version@
            &&& c.allow_capital_letters == config.allow_capital_letters
            &&& c.public_mode == config.public_mode
            &&& c.slug_style@ == config.slug_style@
            &&& c.slug_length == config.slug_length
            &&& c.try_longer_slug == config.try_longer_slug
            &&& c.frontend_page_size == config.frontend_page_size
        },
{
    match auth {
        Auth::ValidSession | Auth::ValidAPIKey => Reply {
            status: STATUS_OK,
            body: Body::Config(backend_config(config, version)),
        },
        Auth::Missing { result } | Auth::InvalidAPIKey { result } => {
            if config.public_mode {
                Reply { status: STATUS_OK, body: Body::Config(backend_config(config, version)) }
            } else {
                Reply { status: STATUS_UNAUTHORIZED, body: Body::Json(result) }
            }
        },
    }
}

/// The first step of `GET /{shortlink}`: the store is asked for the long
/// link of `shortlink`; no credentials are looked at.
pub fn link_handler_start(shortlink: &str) -> (q: LookupRequest)
    ensures
        q@ == shortlink@,
{
    LookupRequest { shortlink: String::from_str(shortlink) }
}

/// A found link is answered with a redirect to its long link, temporary or
/// permanent as configured; an unknown one with the not-found page.
pub open spec fn link_handler_reply(use_temp_redirect: bool, found: Option<Seq<char>>) -> ReplyView {
    match found {
        Some(longlink) => ReplyView {
            status: if use_temp_redirect {
                STATUS_TEMPORARY_REDIRECT
            } else {
                STATUS_PERMANENT_REDIRECT
            },
            body: BodyView::Redirect(longlink),
        },
        None => ReplyView { status: STATUS_NOT_FOUND, body: BodyView::NotFoundPage },
    }
}

/// Answers `GET /{shortlink}`; `found` is the long link that the store holds
/// for the short link, if it holds one.
pub fn link_handler(config: &Config, found: Option<String>) -> (r: Reply)
    ensures
        r@ == link_handler_reply(config.use_temp_redirect, opt_text(found)),
        found matches Some(l) ==> (r.body matches Body::Redirect(loc) && loc@ == l@),
        found is Some ==> r.status == (if config.use_temp_redirect {
            307u16
        } else {
            308u16
        }),
        found is None ==> r.status == 404 && r.body is NotFoundPage,
{
    match found {
        Some(longlink) => {
            if config.use_temp_redirect {
                Reply { status: STATUS_TEMPORARY_REDIRECT, body: Body::Redirect(longlink) }
            } else {
                Reply { status: STATUS_PERMANENT_REDIRECT, body: Body::Redirect(longlink) }
            }
        },
        None => Reply { status: STATUS_NOT_FOUND, body: Body::NotFoundPage },
    }
}

} // verus!
