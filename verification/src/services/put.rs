use vstd::prelude::*;
use vstd::string::*;
use crate::reply::{
    json, json_body_reply, json_reply, Body, Reply, ReplyView, STATUS_BAD_REQUEST, STATUS_CREATED,
    STATUS_INTERNAL_SERVER_ERROR, STATUS_UNAUTHORIZED,
};
use crate::services::{EditRequest, Plan, PlanView};
use crate::types::{is_authenticated, refusal_body, Auth, ChhotoError};

verus! {

/// The first step of an edit: only authenticated requests reach the store,
/// which is handed the request body; the others are refused with the body
/// their credentials produced.
pub open spec fn edit_link_plan(auth: Auth, req: Seq<char>) -> PlanView<Seq<char>> {
    if is_authenticated(&auth) {
        PlanView::Consult(req)
    } else {
        PlanView::Respond(json_body_reply(STATUS_UNAUTHORIZED, refusal_body(&auth)))
    }
}

/// The reply to an edit, given what the store answered.
pub open spec fn edit_link_reply(auth: Auth, outcome: Result<(), ChhotoError>) -> ReplyView {
    if is_authenticated(&auth) {
        match outcome {
            Ok(_) => json_reply(STATUS_CREATED, true, "Edit was successful."@),
            Err(ChhotoError::ServerError) => json_reply(
                STATUS_INTERNAL_SERVER_ERROR,
                false,
                "Something went wrong when editing the link."@,
            ),
            Err(ChhotoError::ClientError { reason }) => json_reply(
                STATUS_BAD_REQUEST,
                false,
                reason@,
            ),
        }
    } else {
        json_body_reply(STATUS_UNAUTHORIZED, refusal_body(&auth))
    }
}

/// The first step of `PUT /api/edit`.
pub fn edit_link_start(auth: &Auth, req: &str) -> (p: Plan<EditRequest>)
    ensures
        p@ == edit_link_plan(*auth, req@),
{
    match auth {
        Auth::ValidAPIKey | Auth::ValidSession => Plan::Consult(
            EditRequest { req: String::from_str(req) },
        ),
        Auth::Missing { result } | Auth::InvalidAPIKey { result } => Plan::Respond(
            Reply { status: STATUS_UNAUTHORIZED, body: Body::Json(result.duplicate()) },
        ),
    }
}

/// The second step of `PUT /api/edit`: the reply, given what the store
/// answered to the edit.
pub fn edit_link(auth: Auth, outcome: Result<(), ChhotoError>) -> (r: Reply)
    ensures
        r@ == edit_link_reply(auth, outcome),
{
    match auth {
        Auth::ValidAPIKey | Auth::ValidSession => match outcome {
            Ok(()) => json(STATUS_CREATED, true, String::from_str("Edit was successful.")),
            Err(ChhotoError::ServerError) => json(
                STATUS_INTERNAL_SERVER_ERROR,
                false,
                String::from_str("Something went wrong when editing the link."),
            ),
            Err(ChhotoError::ClientError { reason }) => json(STATUS_BAD_REQUEST, false, reason),
        },
        Auth::Missing { result } | Auth::InvalidAPIKey { result } => Reply {
            status: STATUS_UNAUTHORIZED,
            body: Body::Json(result),
        },
    }
}

} // verus!
