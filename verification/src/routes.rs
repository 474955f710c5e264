//! The decisions of the two POST handlers: which route a path names,
//! which identifiers it carries, and which response each step of a
//! request settles on. The surrounding process performs the store and
//! network work and asks this module what to answer.

use vstd::prelude::*;
use vstd::string::StringExecFns;
use crate::bytes_util::{bytes_of, bytes_eq, str_bytes, push_bytes, push_str_bytes};
use crate::form::{spec_new_alert_form, spec_edit_form, parse_new_alert_form, parse_edit_form,
    EditAction, FormError};
use crate::monitor::AlertHeuristics;
use crate::id::{Id, valid_id_text, decoded_id};

verus! {

/// The response a handler answers with.
#[derive(Debug)]
pub enum RouteResponse {
    /// 503: no store transaction could be opened.
    ServiceUnavailable,
    /// 303 to the login page: the caller is not signed in.
    RedirectToLogin,
    /// 404: the repo or model is missing or not the caller's.
    NotFound,
    /// 400 with no page: the request itself is unusable.
    BadRequest,
    /// 400 with the re-rendered form carrying this inline message.
    ErrorPage(String),
    /// 303 to this location: the action went through.
    SeeOther(Vec<u8>),
}

impl RouteResponse {
    /// The HTTP status each response carries.
    pub open spec fn spec_status_code(&self) -> u16 {
        match self {
            RouteResponse::ServiceUnavailable => 503,
            RouteResponse::RedirectToLogin => 303,
            RouteResponse::NotFound => 404,
            RouteResponse::BadRequest => 400,
            RouteResponse::ErrorPage(_) => 400,
            RouteResponse::SeeOther(_) => 303,
        }
    }

    /// The HTTP status of this response.
    pub fn status_code(&self) -> (r: u16)
        ensures
            r == self.spec_status_code(),
    {
        match self {
            RouteResponse::ServiceUnavailable => 503,
            RouteResponse::RedirectToLogin => 303,
            RouteResponse::NotFound => 404,
            RouteResponse::BadRequest => 400,
            RouteResponse::ErrorPage(_) => 400,
            RouteResponse::SeeOther(_) => 303,
        }
    }
}

/// The repo and model segments of the new-alert route,
/// `repos/<repo>/models/<model>/production_alerts/new`.
pub open spec fn spec_new_alert_path(segs: Seq<Seq<u8>>) -> Option<(Seq<u8>, Seq<u8>)> {
    if segs.len() == 6 && segs[0] == bytes_of("repos") && segs[2] == bytes_of("models") && segs[4]
        == bytes_of("production_alerts") && segs[5] == bytes_of("new") {
        Some((segs[1], segs[3]))
    } else {
        None
    }
}

/// The repo, model and alert segments of the edit route,
/// `repos/<repo>/models/<model>/production_alerts/<alert>/edit`.
pub open spec fn spec_edit_path(segs: Seq<Seq<u8>>) -> Option<(Seq<u8>, Seq<u8>, Seq<u8>)> {
    if segs.len() == 7 && segs[0] == bytes_of("repos") && segs[2] == bytes_of("models") && segs[4]
        == bytes_of("production_alerts") && segs[6] == bytes_of("edit") {
        Some((segs[1], segs[3], segs[5]))
    } else {
        None
    }
}

/// Match a path against the new-alert route and hand out its repo and
/// model segments.
pub fn match_new_alert_path(segs: &Vec<Vec<u8>>) -> (r: Option<(Vec<u8>, Vec<u8>)>)
    ensures
        match r {
            Some(p) => spec_new_alert_path(segs.deep_view()) == Some((p.0@, p.1@)),
            None => spec_new_alert_path(segs.deep_view()) is None,
        },
{
    let ghost sv = segs.deep_view();
    proof {
        assert(sv.len() == segs@.len());
        assert forall|j: int| 0 <= j < segs@.len() implies sv[j] =~~= segs@[j]@ by {
            assert(segs@[j].deep_view() == sv[j]);
        }
    }
    if segs.len() != 6 {
        return None;
    }
    if !bytes_eq(segs[0].as_slice(), str_bytes("repos").as_slice()) {
        return None;
    }
    if !bytes_eq(segs[2].as_slice(), str_bytes("models").as_slice()) {
        return None;
    }
    if !bytes_eq(segs[4].as_slice(), str_bytes("production_alerts").as_slice()) {
        return None;
    }
    if !bytes_eq(segs[5].as_slice(), str_bytes("new").as_slice()) {
        return None;
    }
    let repo = vstd::slice::slice_to_vec(segs[1].as_slice());
    let model = vstd::slice::slice_to_vec(segs[3].as_slice());
    Some((repo, model))
}

/// Match a path against the edit route and hand out its repo, model and
/// alert segments.
pub fn match_edit_path(segs: &Vec<Vec<u8>>) -> (r: Option<(Vec<u8>, Vec<u8>, Vec<u8>)>)
    ensures
        match r {
            Some(p) => spec_edit_path(segs.deep_view()) == Some((p.0@, p.1@, p.2@)),
            None => spec_edit_path(segs.deep_view()) is None,
        },
{
    let ghost sv = segs.deep_view();
    proof {
        assert(sv.len() == segs@.len());
        assert forall|j: int| 0 <= j < segs@.len() implies sv[j] =~~= segs@[j]@ by {
            assert(segs@[j].deep_view() == sv[j]);
        }
    }
    if segs.len() != 7 {
        return None;
    }
    if !bytes_eq(segs[0].as_slice(), str_bytes("repos").as_slice()) {
        return None;
    }
    if !bytes_eq(segs[2].as_slice(), str_bytes("models").as_slice()) {
        return None;
    }
    if !bytes_eq(segs[4].as_slice(), str_bytes("production_alerts").as_slice()) {
        return None;
    }
    if !bytes_eq(segs[6].as_slice(), str_bytes("edit").as_slice()) {
        return None;
    }
    let repo = vstd::slice::slice_to_vec(segs[1].as_slice());
    let model = vstd::slice::slice_to_vec(segs[3].as_slice());
    let alert = vstd::slice::slice_to_vec(segs[5].as_slice());
    Some((repo, model, alert))
}

/// Parse the repo and model path segments as identifiers: a bad repo
/// segment is a 404, a bad model segment after a good repo one is a 400.
pub fn parse_path_ids(repo_seg: &[u8], model_seg: &[u8]) -> (r: Result<(Id, Id), RouteResponse>)
    ensures
        match r {
            Ok(ids) => {
                &&& valid_id_text(repo_seg@)
                &&& valid_id_text(model_seg@)
                &&& ids.0.bytes@ == decoded_id(repo_seg@)
                &&& ids.1.bytes@ == decoded_id(model_seg@)
            },
            Err(resp) => (!valid_id_text(repo_seg@) && resp matches RouteResponse::NotFound) || (
            valid_id_text(repo_seg@) && !valid_id_text(model_seg@)
                && resp matches RouteResponse::BadRequest),
        },
{
    let repo_id = match Id::parse(repo_seg) {
        Some(id) => id,
        None => {
            return Err(RouteResponse::NotFound);
        },
    };
    let model_id = match Id::parse(model_seg) {
        Some(id) => id,
        None => {
            return Err(RouteResponse::BadRequest);
        },
    };
    Ok((repo_id, model_id))
}

/// The listing page a successful action redirects to.
pub open spec fn spec_alerts_location(repo_seg: Seq<u8>, model_seg: Seq<u8>) -> Seq<u8> {
    bytes_of("/repos/") + repo_seg + bytes_of("/models/") + model_seg + bytes_of(
        "/production_alerts/",
    )
}

/// Build the location of the model's alert listing page.
pub fn alerts_location(repo_seg: &[u8], model_seg: &[u8]) -> (r: Vec<u8>)
    ensures
        r@ == spec_alerts_location(repo_seg@, model_seg@),
{
    let mut out: Vec<u8> = Vec::new();
    push_str_bytes(&mut out, "/repos/");
    push_bytes(&mut out, repo_seg);
    push_str_bytes(&mut out, "/models/");
    push_bytes(&mut out, model_seg);
    push_str_bytes(&mut out, "/production_alerts/");
    assert(out@ =~= spec_alerts_location(repo_seg@, model_seg@));
    out
}

/// The redirect a successful create, update or delete answers with.
pub fn redirect_to_alerts(repo_seg: &[u8], model_seg: &[u8]) -> (r: RouteResponse)
    ensures
        r matches RouteResponse::SeeOther(l) && l@ == spec_alerts_location(repo_seg@, model_seg@),
{
    RouteResponse::SeeOther(alerts_location(repo_seg, model_seg))
}

/// The response once the insert of a new alert succeeded or failed: the
/// redirect to the listing, or the re-rendered form with its message.
pub fn respond_after_create(insert_ok: bool, repo_seg: &[u8], model_seg: &[u8]) -> (r:
    RouteResponse)
    ensures
        insert_ok ==> (r matches RouteResponse::SeeOther(l) && l@ == spec_alerts_location(
            repo_seg@,
            model_seg@,
        )),
        !insert_ok ==> (r matches RouteResponse::ErrorPage(m) && m@
            == "There was an error creating your alert."@),
    {
    if insert_ok {
        redirect_to_alerts(repo_seg, model_seg)
    } else {
        RouteResponse::ErrorPage(String::from_str("There was an error creating your alert."))
    }
}

/// The response once the update of an alert succeeded or failed.
pub fn respond_after_update(update_ok: bool, repo_seg: &[u8], model_seg: &[u8]) -> (r:
    RouteResponse)
    ensures
        update_ok ==> (r matches RouteResponse::SeeOther(l) && l@ == spec_alerts_location(
            repo_seg@,
            model_seg@,
        )),
        !update_ok ==> (r matches RouteResponse::ErrorPage(m) && m@
            == "There was an error editing your alert."@),
    {
    if update_ok {
        redirect_to_alerts(repo_seg, model_seg)
    } else {
        RouteResponse::ErrorPage(String::from_str("There was an error editing your alert."))
    }
}

/// The one failure a handler does not answer: the request ends as an
/// unhandled error, as when its path does not name the route at all.
#[derive(Clone, Copy, Debug, PartialEq, Eq, Structural)]
pub enum RouteError {
    UnexpectedPath,
}

impl RouteError {
    /// The text the failed request reports.
    pub fn message(&self) -> (r: String)
        ensures
            r@ == "unexpected path"@,
    {
        String::from_str("unexpected path")
    }
}

/// Decide on a request path for the new-alert route: hand out its repo
/// and model segments, or end the request as an unhandled failure when
/// the path does not split as the route asks.
pub fn new_alert_route(segs: &Vec<Vec<u8>>) -> (r: Result<(Vec<u8>, Vec<u8>), RouteError>)
    ensures
        match r {
            Ok(p) => spec_new_alert_path(segs.deep_view()) == Some((p.0@, p.1@)),
            Err(e) => {
                &&& spec_new_alert_path(segs.deep_view()) is None
                &&& e == RouteError::UnexpectedPath
            },
        },
{
    match match_new_alert_path(segs) {
        Some(p) => Ok(p),
        None => Err(RouteError::UnexpectedPath),
    }
}

/// Decide on a request path for the edit route in the same way.
pub fn edit_route(segs: &Vec<Vec<u8>>) -> (r: Result<(Vec<u8>, Vec<u8>, Vec<u8>), RouteError>)
    ensures
        match r {
            Ok(p) => spec_edit_path(segs.deep_view()) == Some((p.0@, p.1@, p.2@)),
            Err(e) => {
                &&& spec_edit_path(segs.deep_view()) is None
                &&& e == RouteError::UnexpectedPath
            },
        },
{
    match match_edit_path(segs) {
        Some(p) => Ok(p),
        None => Err(RouteError::UnexpectedPath),
    }
}

/// The outcomes of the checks the surrounding process ran for one
/// request: whether a store transaction could begin, whether the session
/// names a user, and whether that user owns the repo and the model.
#[derive(Clone, Copy, Debug, PartialEq, Eq, Structural)]
pub struct AuthChecks {
    pub store_available: bool,
    pub signed_in: bool,
    pub may_see_repo: bool,
    pub may_see_model: bool,
}

/// The full pre-body chain of both handlers, in the order the checks run:
/// no transaction is 503, no session is the login redirect, a bad repo
/// segment or a repo the caller does not own is 404, a bad model segment
/// is 400, a model the caller does not own is 404. Identifiers come out
/// only when every check passes, so a caller that writes a row only with
/// `Ok` in hand writes it only under the whole chain.
pub fn authorize_request(checks: AuthChecks, repo_seg: &[u8], model_seg: &[u8]) -> (r: Result<
    (Id, Id),
    RouteResponse,
>)
    ensures
        match r {
            Ok(ids) => {
                &&& checks.store_available
                &&& checks.signed_in
                &&& valid_id_text(repo_seg@)
                &&& checks.may_see_repo
                &&& valid_id_text(model_seg@)
                &&& checks.may_see_model
                &&& ids.0.bytes@ == decoded_id(repo_seg@)
                &&& ids.1.bytes@ == decoded_id(model_seg@)
            },
            Err(resp) => if !checks.store_available {
                resp matches RouteResponse::ServiceUnavailable
            } else if !checks.signed_in {
                resp matches RouteResponse::RedirectToLogin
            } else if !valid_id_text(repo_seg@) {
                resp matches RouteResponse::NotFound
            } else if !checks.may_see_repo {
                resp matches RouteResponse::NotFound
            } else if !valid_id_text(model_seg@) {
                resp matches RouteResponse::BadRequest
            } else {
                &&& !checks.may_see_model
                &&& resp matches RouteResponse::NotFound
            },
        },
{
    if !checks.store_available {
        return Err(RouteResponse::ServiceUnavailable);
    }
    if !checks.signed_in {
        return Err(RouteResponse::RedirectToLogin);
    }
    let repo_id = match Id::parse(repo_seg) {
        Some(id) => id,
        None => {
            return Err(RouteResponse::NotFound);
        },
    };
    if !checks.may_see_repo {
        return Err(RouteResponse::NotFound);
    }
    let model_id = match Id::parse(model_seg) {
        Some(id) => id,
        None => {
            return Err(RouteResponse::BadRequest);
        },
    };
    if !checks.may_see_model {
        return Err(RouteResponse::NotFound);
    }
    Ok((repo_id, model_id))
}

/// Decide on the new-alert body: a malformed form gets the plain 400; an
/// unknown cadence, metric or threshold is a recoverable validation
/// failure and gets a 400 page carrying its user-facing message; a good
/// form hands back its alert.
pub fn new_alert_action(body: &[u8]) -> (r: Result<AlertHeuristics, RouteResponse>)
    ensures
        match spec_new_alert_form(body@) {
            Ok(a) => r matches Ok(x) && x == a,
            Err(e) => match e {
                FormError::Malformed => r matches Err(RouteResponse::BadRequest),
                _ => r matches Err(RouteResponse::ErrorPage(m)) && m@
                    == crate::form::spec_form_error_message(e),
            },
        },
{
    match parse_new_alert_form(body) {
        Ok(a) => Ok(a),
        Err(FormError::Malformed) => Err(RouteResponse::BadRequest),
        Err(e) => Err(RouteResponse::ErrorPage(e.message())),
    }
}

/// Decide on the edit body in the same way; a good form hands back the
/// requested action.
pub fn edit_action(body: &[u8]) -> (r: Result<EditAction, RouteResponse>)
    ensures
        match spec_edit_form(body@) {
            Ok(a) => r matches Ok(x) && x == a,
            Err(e) => match e {
                FormError::Malformed => r matches Err(RouteResponse::BadRequest),
                _ => r matches Err(RouteResponse::ErrorPage(m)) && m@
                    == crate::form::spec_form_error_message(e),
            },
        },
{
    match parse_edit_form(body) {
        Ok(a) => Ok(a),
        Err(FormError::Malformed) => Err(RouteResponse::BadRequest),
        Err(e) => Err(RouteResponse::ErrorPage(e.message())),
    }
}

} // verus!
