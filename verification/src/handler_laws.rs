//! What each handler answers, case by case, stated over its inputs.
use vstd::prelude::*;
use vstd::string::*;
use crate::config::Config;
use crate::reply::{text_reply, Body, BodyView, Reply, ReplyView, STATUS_OK};
use crate::header::is_valid_header_value;
use crate::services::{cache_control_of, frontend_matches, Frontend, PlanView};
use crate::services::delete::{delete_link_plan, delete_link_reply, logout_reply};
use crate::services::get::{
    getall_plan, getall_reply, getconfig_reply, link_handler_reply, role, siteurl_reply,
    version_text,
};
use crate::services::put::{edit_link_plan, edit_link_reply};
use crate::types::{
    is_authenticated, opt_text, texts, Auth, BackendConfig, ChhotoError, JSONResponse,
    JSONResponseView,
};

verus! {

/// The JSON body with these flags and this reason.
pub open spec fn json_body(success: bool, error: bool, reason: Seq<char>) -> BodyView {
    BodyView::Json(JSONResponseView { success, error, reason })
}

/// An edit by an authenticated request is answered from the store's outcome
/// alone, whichever kind of credential it carries: `201` with success, `400`
/// with the store's reason for a refused edit, `500` for a failed store.
pub proof fn lemma_edit_link_outcomes(auth: Auth, reason: String)
    requires
        is_authenticated(&auth),
    ensures
        edit_link_reply(auth, Ok(())) == (ReplyView {
            status: 201,
            body: json_body(true, false, "Edit was successful."@),
        }),
        edit_link_reply(auth, Err(ChhotoError::ServerError)) == (ReplyView {
            status: 500,
            body: json_body(false, true, "Something went wrong when editing the link."@),
        }),
        edit_link_reply(auth, Err(ChhotoError::ClientError { reason })) == (ReplyView {
            status: 400,
            body: json_body(false, true, reason@),
        }),
{
}

/// An edit without valid credentials is answered `401` with the refusal body
/// those credentials produced, whatever the store would have answered, and
/// the store is not asked.
pub proof fn lemma_edit_link_refused(result: JSONResponse, req: Seq<char>, outcome: Result<(), ChhotoError>)
    ensures
        edit_link_reply(Auth::InvalidAPIKey { result }, outcome) == (ReplyView {
            status: 401,
            body: BodyView::Json(result@),
        }),
        edit_link_reply(Auth::Missing { result }, outcome) == (ReplyView {
            status: 401,
            body: BodyView::Json(result@),
        }),
        edit_link_plan(Auth::InvalidAPIKey { result }, req) == PlanView::<Seq<char>>::Respond(
            ReplyView { status: 401, body: BodyView::Json(result@) },
        ),
        edit_link_plan(Auth::Missing { result }, req) == PlanView::<Seq<char>>::Respond(
            ReplyView { status: 401, body: BodyView::Json(result@) },
        ),
        edit_link_plan(Auth::ValidAPIKey, req) == PlanView::Consult(req),
        edit_link_plan(Auth::ValidSession, req) == PlanView::Consult(req),
{
}

/// A listing by an authenticated request passes the store's JSON listing
/// through unchanged with `200`, whichever kind of credential it carries;
/// a refused listing is `400` with the store's reason, a failed store `500`.
pub proof fn lemma_getall_outcomes(auth: Auth, listing: String, reason: String)
    requires
        is_authenticated(&auth),
    ensures
        getall_reply(auth, Ok(listing)) == (ReplyView {
            status: 200,
            body: BodyView::JsonText(listing@),
        }),
        getall_reply(auth, Err(ChhotoError::ServerError)) == (ReplyView {
            status: 500,
            body: BodyView::Text("Something went wrong while loading the links."@),
        }),
        getall_reply(auth, Err(ChhotoError::ClientError { reason })) == (ReplyView {
            status: 400,
            body: BodyView::Text(reason@),
        }),
{
}

/// A listing without valid credentials is answered `401`: with the text
/// `Unauthorized` when none were given, with the refusal's reason for an
/// invalid key; the store is not asked.
pub proof fn lemma_getall_refused(
    result: JSONResponse,
    query: Seq<char>,
    outcome: Result<String, ChhotoError>,
)
    ensures
        getall_reply(Auth::Missing { result }, outcome) == (ReplyView {
            status: 401,
            body: BodyView::Text("Unauthorized"@),
        }),
        getall_reply(Auth::InvalidAPIKey { result }, outcome) == (ReplyView {
            status: 401,
            body: BodyView::Text(result.reason@),
        }),
        getall_plan(Auth::Missing { result }, query) == PlanView::<Seq<char>>::Respond(
            ReplyView { status: 401, body: BodyView::Text("Unauthorized"@) },
        ),
        getall_plan(Auth::InvalidAPIKey { result }, query) == PlanView::<Seq<char>>::Respond(
            ReplyView { status: 401, body: BodyView::Text(result.reason@) },
        ),
        getall_plan(Auth::ValidAPIKey, query) == PlanView::Consult(query),
        getall_plan(Auth::ValidSession, query) == PlanView::Consult(query),
{
}

/// A deletion by API key is answered in JSON: `200` and `Deleted ` followed
/// by the short link on success, `404` with the store's reason for a refused
/// deletion, `500` for a failed store.
pub proof fn lemma_delete_link_by_key(shortlink: Seq<char>, reason: String)
    ensures
        delete_link_reply(Auth::ValidAPIKey, shortlink, Ok(())) == (ReplyView {
            status: 200,
            body: json_body(true, false, "Deleted "@ + shortlink),
        }),
        delete_link_reply(Auth::ValidAPIKey, shortlink, Err(ChhotoError::ServerError)) == (
        ReplyView {
            status: 500,
            body: json_body(false, true, "Something went wrong when deleting the link."@),
        }),
        delete_link_reply(Auth::ValidAPIKey, shortlink, Err(ChhotoError::ClientError { reason }))
            == (ReplyView { status: 404, body: json_body(false, true, reason@) }),
{
}

/// A deletion by a browser session is answered in text: `200` and `Deleted `
/// followed by the short link on success, `404 Not found!` on any failure.
pub proof fn lemma_delete_link_by_session(shortlink: Seq<char>, error: ChhotoError)
    ensures
        delete_link_reply(Auth::ValidSession, shortlink, Ok(())) == (ReplyView {
            status: 200,
            body: BodyView::Text("Deleted "@ + shortlink),
        }),
        delete_link_reply(Auth::ValidSession, shortlink, Err(error)) == (ReplyView {
            status: 404,
            body: BodyView::Text("Not found!"@),
        }),
{
}

/// A deletion without valid credentials is answered `401`: with the refusal
/// body for an invalid key, with `Not logged in!` when none were given; the
/// store is not asked. With valid credentials the store is asked to delete
/// exactly the requested short link under the configured rule on capitals.
pub proof fn lemma_delete_link_refused(
    result: JSONResponse,
    shortlink: Seq<char>,
    allow_capital_letters: bool,
    outcome: Result<(), ChhotoError>,
)
    ensures
        delete_link_reply(Auth::InvalidAPIKey { result }, shortlink, outcome) == (ReplyView {
            status: 401,
            body: BodyView::Json(result@),
        }),
        delete_link_reply(Auth::Missing { result }, shortlink, outcome) == (ReplyView {
            status: 401,
            body: BodyView::Text("Not logged in!"@),
        }),
        delete_link_plan(Auth::InvalidAPIKey { result }, shortlink, allow_capital_letters)
            == PlanView::<(Seq<char>, bool)>::Respond(
            ReplyView { status: 401, body: BodyView::Json(result@) },
        ),
        delete_link_plan(Auth::Missing { result }, shortlink, allow_capital_letters)
            == PlanView::<(Seq<char>, bool)>::Respond(
            ReplyView { status: 401, body: BodyView::Text("Not logged in!"@) },
        ),
        delete_link_plan(Auth::ValidAPIKey, shortlink, allow_capital_letters) == PlanView::Consult(
            (shortlink, allow_capital_letters),
        ),
        delete_link_plan(Auth::ValidSession, shortlink, allow_capital_letters) == PlanView::Consult(
            (shortlink, allow_capital_letters),
        ),
{
}

/// A found short link is answered with a redirect to exactly its long link,
/// `307` when temporary redirects are configured and `308` otherwise; an
/// unknown one with `404` and the not-found page.
pub proof fn lemma_link_handler(use_temp_redirect: bool, found: Option<String>)
    ensures
        found matches Some(longlink) ==> link_handler_reply(use_temp_redirect, opt_text(found))
            == (ReplyView {
            status: if use_temp_redirect {
                307u16
            } else {
                308u16
            },
            body: BodyView::Redirect(longlink@),
        }),
        found is None ==> link_handler_reply(use_temp_redirect, opt_text(found)) == (ReplyView {
            status: 404,
            body: BodyView::NotFoundPage,
        }),
{
}

/// The configuration endpoint answers `200` to authenticated requests and in
/// public mode, and each setting it reveals is the configured one (an unset
/// public-mode expiry delay shows as zero); other requests get `401` with
/// their refusal body.
pub proof fn lemma_getconfig_fields(auth: Auth, config: Config, version: Seq<char>)
    ensures
        (is_authenticated(&auth) || config.public_mode) ==> {
            let r = getconfig_reply(auth, config, version);
            &&& r.status == 200
            &&& r.body is Config
            &&& r.body->Config_0.version == version
            &&& r.body->Config_0.allow_capital_letters == config.allow_capital_letters
            &&& r.body->Config_0.public_mode == config.public_mode
            &&& r.body->Config_0.public_mode_expiry_delay == (match config.public_mode_expiry_delay {
                Some(d) => d,
                None => 0i64,
            })
            &&& r.body->Config_0.allowed_protocols.len() == config.allowed_protocols@.len()
            &&& forall|i: int|
                0 <= i < config.allowed_protocols@.len()
                    ==> r.body->Config_0.allowed_protocols[i] == #[trigger] config.allowed_protocols@[i]@
            &&& (config.site_url matches Some(u) ==> r.body->Config_0.site_url == Some(u@))
            &&& (config.site_url is None ==> r.body->Config_0.site_url is None)
            &&& r.body->Config_0.slug_style == config.slug_style@
            &&& r.body->Config_0.slug_length == config.slug_length
            &&& r.body->Config_0.try_longer_slug == config.try_longer_slug
            &&& r.body->Config_0.frontend_page_size == config.frontend_page_size
        },
        !is_authenticated(&auth) && !config.public_mode ==> {
            let r = getconfig_reply(auth, config, version);
            &&& r.status == 401
            &&& (auth matches Auth::InvalidAPIKey { result } ==> r.body == BodyView::Json(result@))
            &&& (auth matches Auth::Missing { result } ==> r.body == BodyView::Json(result@))
        },
{
}

/// The role endpoint answers `200` with `admin` for valid credentials, and
/// otherwise `public` in public mode and `nobody` outside it.
pub proof fn lemma_whoami(auth: Auth, public_mode: bool)
    ensures
        is_authenticated(&auth) ==> text_reply(STATUS_OK, role(auth, public_mode)) == (ReplyView {
            status: 200,
            body: BodyView::Text("admin"@),
        }),
        !is_authenticated(&auth) && public_mode ==> text_reply(STATUS_OK, role(auth, public_mode))
            == (ReplyView { status: 200, body: BodyView::Text("public"@) }),
        !is_authenticated(&auth) && !public_mode ==> text_reply(STATUS_OK, role(auth, public_mode))
            == (ReplyView { status: 200, body: BodyView::Text("nobody"@) }),
{
}

/// The site address is answered `200` with the configured address, or with
/// `unset` when none is configured.
pub proof fn lemma_siteurl(config: Config)
    ensures
        config.site_url matches Some(u) ==> siteurl_reply(opt_text(config.site_url)) == (ReplyView {
            status: 200,
            body: BodyView::Text(u@),
        }),
        config.site_url is None ==> siteurl_reply(opt_text(config.site_url)) == (ReplyView {
            status: 200,
            body: BodyView::Text("unset"@),
        }),
{
}

/// The version is answered `200` with `Chhoto URL v` followed by the running
/// version.
pub proof fn lemma_version(running: Seq<char>)
    ensures
        text_reply(STATUS_OK, version_text(running)) == (ReplyView {
            status: 200,
            body: BodyView::Text("Chhoto URL v"@ + running),
        }),
{
}

/// A logout is answered `200 Logged out!` when the session held a login, and
/// `401` otherwise.
pub proof fn lemma_logout()
    ensures
        logout_reply(true) == (ReplyView { status: 200, body: BodyView::Text("Logged out!"@) }),
        logout_reply(false) == (ReplyView {
            status: 401,
            body: BodyView::Text("You don't seem to be logged in."@),
        }),
{
}

/// The views of replies and of their bodies show the values they carry.
pub proof fn lemma_views_show_values(r: Reply, j: JSONResponse, b: BackendConfig)
    ensures
        r@.status == r.status,
        r.body matches Body::Text(s) ==> r@.body == BodyView::Text(s@),
        r.body matches Body::Json(x) ==> r@.body == BodyView::Json(x@),
        r.body matches Body::Config(c) ==> r@.body == BodyView::Config(c@),
        r.body matches Body::JsonText(s) ==> r@.body == BodyView::JsonText(s@),
        r.body matches Body::Redirect(s) ==> r@.body == BodyView::Redirect(s@),
        r.body is NotFoundPage ==> r@.body == BodyView::NotFoundPage,
        j@.success == j.success,
        j@.error == j.error,
        j@.reason == j.reason@,
        b@.version == b.version@,
        b@.allow_capital_letters == b.allow_capital_letters,
        b@.public_mode == b.public_mode,
        b@.public_mode_expiry_delay == b.public_mode_expiry_delay,
        b@.allowed_protocols.len() == b.allowed_protocols@.len(),
        forall|i: int|
            0 <= i < b.allowed_protocols@.len() ==> b@.allowed_protocols[i]
                == #[trigger] b.allowed_protocols@[i]@,
        b.site_url matches Some(u) ==> b@.site_url == Some(u@),
        b.site_url is None ==> b@.site_url is None,
        b@.slug_style == b.slug_style@,
        b@.slug_length == b.slug_length,
        b@.try_longer_slug == b.try_longer_slug,
        b@.frontend_page_size == b.frontend_page_size,
{
}

/// What answers unmatched paths: nothing but the not-found page when the
/// frontend is disabled; otherwise static files, with `index.html` for
/// directories and the not-found page for missing files, from the custom
/// landing directory when one is set (the bundled `./frontend` then moving to
/// `/admin/manage`), or from `./frontend`.
pub proof fn lemma_frontend(f: Frontend, conf: Config)
    requires
        frontend_matches(f, conf),
    ensures
        conf.disable_frontend <==> f is Disabled,
        f matches Frontend::Serve { admin, landing, missing_files_not_found } ==> {
            &&& missing_files_not_found
            &&& landing.index_on_directories
            &&& (conf.custom_landing_directory matches Some(d) ==> {
                &&& landing.directory@ == d@
                &&& admin matches Some(m)
                &&& m.path@ == "/admin/manage"@
                &&& m.files.directory@ == "./frontend"@
                &&& m.files.index_on_directories
            })
            &&& (conf.custom_landing_directory is None ==> {
                &&& landing.directory@ == "./frontend"@
                &&& admin is None
            })
        },
{
}

/// The `Cache-Control` layer carries exactly the configured value, and is
/// added only when a value is configured and every character of it may stand
/// in a header.
pub proof fn lemma_cache_control(c: Option<String>, conf: Config)
    requires
        opt_text(c) == cache_control_of(conf),
    ensures
        (match conf.cache_control_header {
            Some(h) => if is_valid_header_value(h@) {
                c matches Some(v) && v@ == h@
            } else {
                c is None
            },
            None => c is None,
        }),
{
}

} // verus!
