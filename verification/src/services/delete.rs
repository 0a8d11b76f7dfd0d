use vstd::prelude::*;
use vstd::string::*;
use crate::reply::{
    json, json_body_reply, json_reply, text, text_reply, Body, Reply, ReplyView, STATUS_INTERNAL_SERVER_ERROR,
    STATUS_NOT_FOUND, STATUS_OK, STATUS_UNAUTHORIZED,
};
use crate::config::Config;
use crate::services::{DeleteRequest, Plan, PlanView};
use crate::types::{is_authenticated, Auth, ChhotoError};

verus! {

/// The reply to a logout: it succeeds when the session held a login, which
/// is then removed.
pub open spec fn logout_reply(removed: bool) -> ReplyView {
    if removed {
        text_reply(STATUS_OK, "Logged out!"@)
    } else {
        text_reply(STATUS_UNAUTHORIZED, "You don't seem to be logged in."@)
    }
}

/// Answers a logout; `removed` says whether removing the login from the
/// session found one.
pub fn logout(removed: bool) -> (r: Reply)
    ensures
        r@ == logout_reply(removed),
{
    if removed {
        text(STATUS_OK, String::from_str("Logged out!"))
    } else {
        text(STATUS_UNAUTHORIZED, String::from_str("You don't seem to be logged in."))
    }
}

/// How a deletion is refused to a request without valid credentials.
pub open spec fn delete_link_refusal(auth: Auth) -> ReplyView {
    match auth {
        Auth::InvalidAPIKey { result } => json_body_reply(STATUS_UNAUTHORIZED, result@),
        _ => text_reply(STATUS_UNAUTHORIZED, "Not logged in!"@),
    }
}

/// The first step of a deletion: only authenticated requests reach the
/// store, which is asked to delete `shortlink` under the configured rule on
/// capital letters.
pub open spec fn delete_link_plan(auth: Auth, shortlink: Seq<char>, allow_capital_letters: bool) -> PlanView<(Seq<char>, bool)> {
    if is_authenticated(&auth) {
        PlanView::Consult((shortlink, allow_capital_letters))
    } else {
        PlanView::Respond(delete_link_refusal(auth))
    }
}

/// The reply to a deletion of `shortlink`, given what the store answered.
/// API clients get JSON, browser sessions get text.
pub open spec fn delete_link_reply(
    auth: Auth,
    shortlink: Seq<char>,
    outcome: Result<(), ChhotoError>,
) -> ReplyView {
    match auth {
        Auth::ValidAPIKey => match outcome {
            Ok(_) => json_reply(STATUS_OK, true, "Deleted "@ + shortlink),
            Err(ChhotoError::ServerError) => json_reply(
                STATUS_INTERNAL_SERVER_ERROR,
                false,
                "Something went wrong when deleting the link."@,
            ),
            Err(ChhotoError::ClientError { reason }) => json_reply(
                STATUS_NOT_FOUND,
                false,
                reason@,
            ),
        },
        Auth::ValidSession => if outcome is Ok {
            text_reply(STATUS_OK, "Deleted "@ + shortlink)
        } else {
            text_reply(STATUS_NOT_FOUND, "Not found!"@)
        },
        _ => delete_link_refusal(auth),
    }
}

/// The first step of `DELETE /api/del/{shortlink}`.
pub fn delete_link_start(auth: &Auth, shortlink: &str, config: &Config) -> (p: Plan<DeleteRequest>)
    ensures
        p@ == delete_link_plan(*auth, shortlink@, config.allow_capital_letters),
{
    match auth {
        Auth::ValidAPIKey | Auth::ValidSession => Plan::Consult(
            DeleteRequest {
                shortlink: String::from_str(shortlink),
                allow_capital_letters: config.allow_capital_letters,
            },
        ),
        Auth::InvalidAPIKey { result } => Plan::Respond(
            Reply { status: STATUS_UNAUTHORIZED, body: Body::Json(result.duplicate()) },
        ),
        Auth::Missing { .. } => Plan::Respond(
            text(STATUS_UNAUTHORIZED, String::from_str("Not logged in!")),
        ),
    }
}

/// The second step of `DELETE /api/del/{shortlink}`: the reply, given what
/// the store answered to the deletion.
pub fn delete_link(auth: Auth, shortlink: &str, outcome: Result<(), ChhotoError>) -> (r: Reply)
    ensures
        r@ == delete_link_reply(auth, shortlink@, outcome),
{
    match auth {
        Auth::ValidAPIKey => match outcome {
            Ok(()) => json(STATUS_OK, true, String::from_str("Deleted ").concat(shortlink)),
            Err(ChhotoError::ServerError) => json(
                STATUS_INTERNAL_SERVER_ERROR,
                false,
                String::from_str("Something went wrong when deleting the link."),
            ),
            Err(ChhotoError::ClientError { reason }) => json(STATUS_NOT_FOUND, false, reason),
        },
        Auth::ValidSession => {
            if outcome.is_ok() {
                text(STATUS_OK, String::from_str("Deleted ").concat(shortlink))
            } else {
                text(STATUS_NOT_FOUND, String::from_str("Not found!"))
            }
        },
        Auth::InvalidAPIKey { result } => Reply {
            status: STATUS_UNAUTHORIZED,
            body: Body::Json(result),
        },
        Auth::Missing { .. } => text(STATUS_UNAUTHORIZED, String::from_str("Not logged in!")),
    }
}

} // verus!
