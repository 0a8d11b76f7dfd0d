//! Properties that hold across the handlers.
use vstd::prelude::*;
use vstd::string::*;
use crate::config::Config;
use crate::reply::{ReplyView, BodyView, STATUS_OK, STATUS_UNAUTHORIZED};
use crate::services::PlanView;
use crate::services::delete::{delete_link_plan, delete_link_reply};
use crate::services::get::{getall_plan, getall_reply, getconfig_reply, role};
use crate::services::put::{edit_link_plan, edit_link_reply};
use crate::types::{is_authenticated, Auth, ChhotoError};

verus! {

/// The first step of a store-backed handler refuses with this status.
pub open spec fn refuses_with<V>(p: PlanView<V>, status: u16) -> bool {
    match p {
        PlanView::Respond(r) => r.status == status,
        PlanView::Consult(_) => false,
    }
}

/// A request without valid credentials is answered `401 Unauthorized` by the
/// listing, edit and delete endpoints, and by the configuration endpoint
/// outside public mode; and it never acts as `admin`.
pub proof fn lemma_unauthenticated_requests_refused(
    auth: Auth,
    config: Config,
    version: Seq<char>,
    shortlink: Seq<char>,
    req: Seq<char>,
    query: Seq<char>,
)
    requires
        !is_authenticated(&auth),
    ensures
        refuses_with(getall_plan(auth, query), STATUS_UNAUTHORIZED),
        refuses_with(edit_link_plan(auth, req), STATUS_UNAUTHORIZED),
        refuses_with(delete_link_plan(auth, shortlink, config.allow_capital_letters), STATUS_UNAUTHORIZED),
        !config.public_mode ==> getconfig_reply(auth, config, version).status == STATUS_UNAUTHORIZED,
        role(auth, config.public_mode) != "admin"@,
{
    lemma_role_names_differ();
}

/// The three role names differ from one another.
proof fn lemma_role_names_differ()
    ensures
        "admin"@ != "public"@,
        "admin"@ != "nobody"@,
        "public"@ != "nobody"@,
{
    reveal_strlit("admin");
    reveal_strlit("public");
    reveal_strlit("nobody");
    assert("admin"@[0] != "public"@[0]);
    assert("admin"@[0] != "nobody"@[0]);
    assert("public"@[0] != "nobody"@[0]);
}

/// The link store is consulted by the listing, edit and delete endpoints
/// exactly when the request carries valid credentials, and then with one
/// request that carries what the request asked for: the listing's query, the
/// edit's body, and the deleted short link with the configured rule on
/// capital letters.
pub proof fn lemma_store_consulted_iff_authenticated(
    auth: Auth,
    shortlink: Seq<char>,
    allow_capital_letters: bool,
    req: Seq<char>,
    query: Seq<char>,
)
    ensures
        (getall_plan(auth, query) is Consult) <==> is_authenticated(&auth),
        (edit_link_plan(auth, req) is Consult) <==> is_authenticated(&auth),
        (delete_link_plan(auth, shortlink, allow_capital_letters) is Consult) <==> is_authenticated(
            &auth,
        ),
        is_authenticated(&auth) ==> {
            &&& getall_plan(auth, query) == PlanView::Consult(query)
            &&& edit_link_plan(auth, req) == PlanView::Consult(req)
            &&& delete_link_plan(auth, shortlink, allow_capital_letters) == PlanView::Consult(
                (shortlink, allow_capital_letters),
            )
        },
{
}

/// When a request is refused at the first step, the second step gives the
/// same reply whatever the store would have answered.
pub proof fn lemma_refusal_ignores_outcome(
    auth: Auth,
    shortlink: Seq<char>,
    allow_capital_letters: bool,
    req: Seq<char>,
    query: Seq<char>,
    done: Result<(), ChhotoError>,
    listed: Result<String, ChhotoError>,
)
    requires
        !is_authenticated(&auth),
    ensures
        getall_plan(auth, query) == PlanView::<Seq<char>>::Respond(getall_reply(auth, listed)),
        edit_link_plan(auth, req) == PlanView::<Seq<char>>::Respond(edit_link_reply(auth, done)),
        delete_link_plan(auth, shortlink, allow_capital_letters) == PlanView::<(Seq<char>, bool)>::Respond(
            delete_link_reply(auth, shortlink, done),
        ),
{
}

/// A request acts as `admin` exactly when it carries valid credentials, and
/// as `public` exactly when it does not and the site is in public mode.
pub proof fn lemma_role(auth: Auth, public_mode: bool)
    ensures
        (role(auth, public_mode) == "admin"@) <==> is_authenticated(&auth),
        (role(auth, public_mode) == "public"@) <==> (!is_authenticated(&auth) && public_mode),
{
    lemma_role_names_differ();
}

/// The configuration endpoint answers `200 OK` exactly for authenticated
/// requests and in public mode, and then reports the running version and the
/// configured slug length.
pub proof fn lemma_getconfig_reveals_config(auth: Auth, config: Config, version: Seq<char>)
    ensures
        (getconfig_reply(auth, config, version).status == STATUS_OK) <==> (is_authenticated(&auth)
            || config.public_mode),
        getconfig_reply(auth, config, version).status == STATUS_OK ==> {
            let b = getconfig_reply(auth, config, version).body;
            &&& b is Config
            &&& b->Config_0.version == version
            &&& b->Config_0.slug_length == config.slug_length
            &&& b->Config_0.public_mode == config.public_mode
        },
{
}

/// The JSON answers that the edit and delete endpoints give to an
/// authenticated API request report success exactly when the store
/// operation succeeded, and their error flag is the opposite of it.
pub proof fn lemma_json_outcome_flags(auth: Auth, shortlink: Seq<char>, done: Result<(), ChhotoError>)
    requires
        is_authenticated(&auth),
    ensures
        ({
            let r = edit_link_reply(auth, done);
            &&& r.body is Json
            &&& r.body->Json_0.success == (done is Ok)
            &&& r.body->Json_0.error == !(done is Ok)
        }),
        auth is ValidAPIKey ==> {
            let r = delete_link_reply(auth, shortlink, done);
            &&& r.body is Json
            &&& r.body->Json_0.success == (done is Ok)
            &&& r.body->Json_0.error == !(done is Ok)
        },
{
}

} // verus!
