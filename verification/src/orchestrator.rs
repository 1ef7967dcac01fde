use vstd::prelude::*;

use crate::service::CommandResult;

verus! {

/// The inbound request: which of the two independent actions to perform.
pub struct PostRequest {
    pub is_door_open: bool,
    pub is_interphone_open: bool,
}

/// The per-action outcome texts of a handled request.
pub struct OpenResult {
    pub door_open: String,
    pub interphone_open: String,
}

/// The response body: an overall message and the two per-action outcomes.
pub struct PostResponse {
    pub message: String,
    pub result: OpenResult,
}

/// The text reported for an action that was not requested.
pub open spec fn not_open_text() -> Seq<char> {
    "not open"@
}

/// The text reported for an action whose vendor call succeeded.
pub open spec fn open_text() -> Seq<char> {
    "open"@
}

/// The overall message of a response whose request passed validation.
pub open spec fn ok_text() -> Seq<char> {
    "ok"@
}

/// The overall message of a rejected request: neither action was requested.
pub open spec fn invalid_request_text() -> Seq<char> {
    "invalid request. require \"is_door_open\" or \"is_interphone_open\" filed."@
}

/// The outcome text for a performed action: the transport error's text when
/// the vendor call could not be completed, `open` when the vendor reported
/// its success status 100, and the vendor's message verbatim otherwise.
pub open spec fn spec_outcome(res: Result<CommandResult, String>) -> Seq<char> {
    match res {
        Result::Err(e) => e@,
        Result::Ok(c) => if c.status_code == 100 {
            open_text()
        } else {
            c.message@
        },
    }
}

/// An action whose vendor call succeeded (vendor status 100) is reported
/// exactly as `open`.
pub proof fn lemma_success_reported_open(res: Result<CommandResult, String>)
    requires
        res is Ok,
        res->Ok_0.status_code == 100,
    ensures
        spec_outcome(res) == open_text(),
{
}

/// An action whose vendor call parsed but did not succeed (vendor status
/// other than 100) is reported with the vendor's message verbatim.
pub proof fn lemma_vendor_error_reported(res: Result<CommandResult, String>)
    requires
        res is Ok,
        res->Ok_0.status_code != 100,
    ensures
        spec_outcome(res) == res->Ok_0.message@,
{
}

/// An action whose vendor call could not be completed is reported with the
/// transport error's text verbatim.
pub proof fn lemma_transport_error_reported(res: Result<CommandResult, String>)
    requires
        res is Err,
    ensures
        spec_outcome(res) == res->Err_0@,
{
}

/// A request is valid exactly when it asks for at least one action.
pub fn validate(req: &PostRequest) -> (ok: bool)
    ensures
        ok == (req.is_door_open || req.is_interphone_open),
{
    req.is_door_open || req.is_interphone_open
}

/// Turns one performed action's result into its outcome text.
pub fn outcome_message(res: Result<CommandResult, String>) -> (r: String)
    ensures
        r@ == spec_outcome(res),
{
    match res {
        Result::Err(e) => e,
        Result::Ok(c) => {
            if c.status_code == 100 {
                "open".to_owned()
            } else {
                c.message
            }
        },
    }
}

/// Assembles the HTTP status and response body for a request, given the
/// result of each action's vendor call where one was made. A request with
/// neither action is rejected with status 400 and both outcomes `not open`;
/// once validated the status is 200 and the message `ok` whatever the
/// individual outcomes, an action not requested is reported `not open`, and
/// a requested one by its vendor call's outcome.
pub fn respond(
    req: &PostRequest,
    interphone_res: Option<Result<CommandResult, String>>,
    door_res: Option<Result<CommandResult, String>>,
) -> (r: (u16, PostResponse))
    requires
        req.is_interphone_open ==> interphone_res is Some,
        req.is_door_open ==> door_res is Some,
    ensures
        !req.is_door_open && !req.is_interphone_open ==> {
            &&& r.0 == 400
            &&& r.1.message@ == invalid_request_text()
            &&& r.1.result.door_open@ == not_open_text()
            &&& r.1.result.interphone_open@ == not_open_text()
        },
        req.is_door_open || req.is_interphone_open ==> {
            &&& r.0 == 200
            &&& r.1.message@ == ok_text()
            &&& r.1.result.interphone_open@ == (if req.is_interphone_open {
                spec_outcome(interphone_res->Some_0)
            } else {
                not_open_text()
            })
            &&& r.1.result.door_open@ == (if req.is_door_open {
                spec_outcome(door_res->Some_0)
            } else {
                not_open_text()
            })
        },
{
    if !req.is_door_open && !req.is_interphone_open {
        let open_result = OpenResult {
            door_open: "not open".to_owned(),
            interphone_open: "not open".to_owned(),
        };
        let post_response = PostResponse {
            message: "invalid request. require \"is_door_open\" or \"is_interphone_open\" filed."
                .to_owned(),
            result: open_result,
        };
        return (400, post_response);
    }

    let interphone_open = if req.is_interphone_open {
        outcome_message(interphone_res.unwrap())
    } else {
        "not open".to_owned()
    };

    let door_open = if req.is_door_open {
        outcome_message(door_res.unwrap())
    } else {
        "not open".to_owned()
    };

    let open_result = OpenResult { door_open, interphone_open };
    let post_response = PostResponse { message: "ok".to_owned(), result: open_result };
    (200, post_response)
}

} // verus!
