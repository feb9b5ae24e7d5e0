//! Protocol model: requests, responses, per-method deadlines and the
//! dispatch decision for one frame. One parsed request yields exactly one
//! action — an immediate response, or one work unit whose eventual
//! outcome is mapped back to exactly one response.
use vstd::prelude::*;
use vstd::string::StringSliceAdditionalSpecFns;
use crate::camera::cam_views;
use crate::worker::{WorkUnit, WorkReply, VERIFY_BUDGET_MS};

verus! {

/// One decoded protocol request. `params_index` is the `index` member of
/// the request's params, when present and integral.
pub struct Request {
    pub id: Option<u64>,
    pub method: String,
    pub params_index: Option<u64>,
}

/// The payload of a successful response.
pub enum ResultVal {
    Null,
    Ping { version: String },
    Status { version: String, socket: String },
    Cameras(Vec<crate::camera::CameraInfo>),
    Image(String),
    Verify(crate::camera::VerificationResult),
}

/// One protocol response.
pub struct Response {
    pub id: Option<u64>,
    pub result: ResultVal,
    pub error: Option<String>,
}

/// Mathematical image of a response payload.
pub enum ResultValView {
    Null,
    Ping { version: Seq<char> },
    Status { version: Seq<char>, socket: Seq<char> },
    Cameras(Seq<(Seq<char>, Seq<char>, nat)>),
    Image(Seq<char>),
    Verify { ok: bool, reason: Option<Seq<char>> },
}

/// Mathematical image of a response.
pub struct ResponseView {
    pub id: Option<u64>,
    pub result: ResultValView,
    pub error: Option<Seq<char>>,
}

impl View for ResultVal {
    type V = ResultValView;

    open spec fn view(&self) -> ResultValView {
        match self {
            ResultVal::Null => ResultValView::Null,
            ResultVal::Ping { version } => ResultValView::Ping { version: version@ },
            ResultVal::Status { version, socket } => ResultValView::Status {
                version: version@,
                socket: socket@,
            },
            ResultVal::Cameras(cs) => ResultValView::Cameras(cam_views(cs@)),
            ResultVal::Image(s) => ResultValView::Image(s@),
            ResultVal::Verify(v) => ResultValView::Verify {
                ok: v.ok,
                reason: match v.reason {
                    Some(r) => Some(r@),
                    None => None,
                },
            },
        }
    }
}

impl View for Response {
    type V = ResponseView;

    open spec fn view(&self) -> ResponseView {
        ResponseView {
            id: self.id,
            result: self.result@,
            error: match self.error {
                Some(e) => Some(e@),
                None => None,
            },
        }
    }
}

/// A response carries a payload or an error, never both. An error
/// response with an unknown correlation token carries neither id nor
/// payload.
pub open spec fn wf_response(r: ResponseView) -> bool {
    r.error is Some ==> r.result is Null
}

/// The dispatch decision for one parsed request.
pub enum LineAction {
    Respond(Response),
    Offload { id: Option<u64>, unit: WorkUnit, timeout_secs: u64 },
}

/// The per-method execution deadline, in seconds: capture gets the long
/// budget, verification the middle one, everything else the short
/// default.
pub open spec fn spec_method_timeout_secs(m: Seq<char>) -> u64 {
    if m == "capture_thumbnail"@ {
        15
    } else if m == "verify_once"@ {
        10
    } else {
        5
    }
}

/// Selects the per-method execution deadline.
pub fn method_timeout_secs(method: &str) -> (r: u64)
    ensures
        r == spec_method_timeout_secs(method@),
{
    if crate::text::str_eq(method, "capture_thumbnail") {
        15
    } else if crate::text::str_eq(method, "verify_once") {
        10
    } else {
        5
    }
}

/// The action for a request carries that request's correlation token:
/// an immediate response echoes it, an offloaded unit keeps it for the
/// response its reply will become.
pub open spec fn action_preserves_id(r: LineAction, id: Option<u64>) -> bool {
    match r {
        LineAction::Respond(resp) => resp@.id == id,
        LineAction::Offload { id: oid, unit: _, timeout_secs: _ } => oid == id,
    }
}

/// A recognized method name.
pub open spec fn is_known_method(m: Seq<char>) -> bool {
    m == "ping"@ || m == "status"@ || m == "list_cameras"@ || m == "capture_thumbnail"@
        || m == "verify_once"@
}

/// The dispatch table for one decoded request, as a relation between its
/// members and the action taken: each local method's exact response view,
/// each device method's exact unit and deadline, the exact error for an
/// unrecognized method, and the correlation token carried throughout.
pub open spec fn plan_matches(
    r: LineAction,
    id: Option<u64>,
    method: Seq<char>,
    params_index: Option<u64>,
    version: Seq<char>,
    socket_path: Seq<char>,
) -> bool {
    &&& action_preserves_id(r, id)
    &&& method == "ping"@ ==> (r matches LineAction::Respond(resp) && resp@ == (ResponseView {
        id: id,
        result: ResultValView::Ping { version: version },
        error: None,
    }))
    &&& method == "status"@ ==> (r matches LineAction::Respond(resp) && resp@ == (ResponseView {
        id: id,
        result: ResultValView::Status { version: version, socket: socket_path },
        error: None,
    }))
    &&& method == "list_cameras"@ ==> (r matches LineAction::Offload { id: oid, unit, timeout_secs }
        && oid == id && unit is ListCameras && timeout_secs == 5)
    &&& method == "capture_thumbnail"@ ==> (r matches LineAction::Offload {
        id: oid,
        unit,
        timeout_secs,
    } && oid == id && timeout_secs == 15 && (unit matches WorkUnit::CaptureThumbnail(idx)
        && idx == (match params_index {
        Some(v) => v as usize,
        None => 0usize,
    })))
    &&& method == "verify_once"@ ==> (r matches LineAction::Offload { id: oid, unit, timeout_secs }
        && oid == id && unit == WorkUnit::VerifyOnce(VERIFY_BUDGET_MS) && timeout_secs == 10)
    &&& !is_known_method(method) ==> (r matches LineAction::Respond(resp) && resp@ == (ResponseView {
        id: id,
        result: ResultValView::Null,
        error: Some("Unknown method: "@ + method),
    }))
}

/// Decides one parsed request: local methods answer at once, device
/// methods become exactly one work unit under the method's deadline, an
/// unrecognized method is answered with an error naming it. The request's
/// correlation token is carried into whichever side is taken.
pub fn plan_request(req: Request, version: &str, socket_path: &str) -> (r: LineAction)
    ensures
        plan_matches(r, req.id, req.method@, req.params_index, version@, socket_path@),
{
    proof {
        reveal_strlit("ping");
        reveal_strlit("status");
        reveal_strlit("list_cameras");
        reveal_strlit("capture_thumbnail");
        reveal_strlit("verify_once");
    }
    let m = req.method.as_str();
    if crate::text::str_eq(m, "ping") {
        LineAction::Respond(Response {
            id: req.id,
            result: ResultVal::Ping { version: String::from_str(version) },
            error: None,
        })
    } else if crate::text::str_eq(m, "status") {
        LineAction::Respond(Response {
            id: req.id,
            result: ResultVal::Status {
                version: String::from_str(version),
                socket: String::from_str(socket_path),
            },
            error: None,
        })
    } else if crate::text::str_eq(m, "list_cameras") {
        LineAction::Offload { id: req.id, unit: WorkUnit::ListCameras, timeout_secs: 5 }
    } else if crate::text::str_eq(m, "capture_thumbnail") {
        let idx: usize = match req.params_index {
            Some(v) => #[verifier::truncate] (v as usize),
            None => 0,
        };
        LineAction::Offload {
            id: req.id,
            unit: WorkUnit::CaptureThumbnail(idx),
            timeout_secs: 15,
        }
    } else if crate::text::str_eq(m, "verify_once") {
        LineAction::Offload {
            id: req.id,
            unit: WorkUnit::VerifyOnce(VERIFY_BUDGET_MS),
            timeout_secs: 10,
        }
    } else {
        LineAction::Respond(Response {
            id: req.id,
            result: ResultVal::Null,
            error: Some(String::from_str("Unknown method: ").concat(req.method.as_str())),
        })
    }
}

/// The response for an oversized frame: an error, no payload, no id.
pub fn response_too_large() -> (r: Response)
    ensures
        r@ == (ResponseView {
            id: None,
            result: ResultValView::Null,
            error: Some("Payload too large"@),
        }),
        wf_response(r@),
{
    Response {
        id: None,
        result: ResultVal::Null,
        error: Some(String::from_str("Payload too large")),
    }
}

/// The response for a frame that did not decode: an error naming the
/// decode problem, no payload, no id (the id is unknown).
pub fn response_invalid(msg: String) -> (r: Response)
    ensures
        r@ == (ResponseView {
            id: None,
            result: ResultValView::Null,
            error: Some("Invalid JSON: "@ + msg@),
        }),
        wf_response(r@),
{
    Response {
        id: None,
        result: ResultVal::Null,
        error: Some(String::from_str("Invalid JSON: ").concat(msg.as_str())),
    }
}

/// The response when the offload queue is unreachable (the worker has
/// exited): an error naming the failure.
pub fn response_worker_died(id: Option<u64>, msg: &str) -> (r: Response)
    ensures
        r@ == (ResponseView {
            id: id,
            result: ResultValView::Null,
            error: Some("Worker died: "@ + msg@),
        }),
        wf_response(r@),
{
    Response {
        id,
        result: ResultVal::Null,
        error: Some(String::from_str("Worker died: ").concat(msg)),
    }
}

/// The response when the unit's reply path was torn down before a value
/// arrived.
pub fn response_worker_dropped(id: Option<u64>) -> (r: Response)
    ensures
        r@ == (ResponseView {
            id: id,
            result: ResultValView::Null,
            error: Some("Worker dropped response"@),
        }),
        wf_response(r@),
{
    Response {
        id,
        result: ResultVal::Null,
        error: Some(String::from_str("Worker dropped response")),
    }
}

/// The response when the per-request deadline elapsed before the unit's
/// reply arrived.
pub fn response_timed_out(id: Option<u64>) -> (r: Response)
    ensures
        r@ == (ResponseView {
            id: id,
            result: ResultValView::Null,
            error: Some("Request timed out"@),
        }),
        wf_response(r@),
{
    Response {
        id,
        result: ResultVal::Null,
        error: Some(String::from_str("Request timed out")),
    }
}

/// Maps the worker's reply for a unit to that unit's single response: a
/// successful reply becomes the payload, a failed one an error naming the
/// failing operation. The correlation token is the requester's.
pub fn response_for_reply(id: Option<u64>, reply: WorkReply) -> (r: Response)
    ensures
        r@.id == id,
        wf_response(r@),
        reply matches WorkReply::Cameras(cs) ==> r@ == (ResponseView {
            id: id,
            result: ResultValView::Cameras(cam_views(cs@)),
            error: None,
        }),
        reply matches WorkReply::Image(Ok(s)) ==> r@ == (ResponseView {
            id: id,
            result: ResultValView::Image(s@),
            error: None,
        }),
        reply matches WorkReply::Image(Err(e)) ==> r@ == (ResponseView {
            id: id,
            result: ResultValView::Null,
            error: Some("Capture error: "@ + e@),
        }),
        reply matches WorkReply::Verify(Ok(v)) ==> r@ == (ResponseView {
            id: id,
            result: ResultValView::Verify {
                ok: v.ok,
                reason: match v.reason {
                    Some(s) => Some(s@),
                    None => None,
                },
            },
            error: None,
        }),
        reply matches WorkReply::Verify(Err(e)) ==> r@ == (ResponseView {
            id: id,
            result: ResultValView::Null,
            error: Some("Verification error: "@ + e@),
        }),
{
    match reply {
        WorkReply::Cameras(cs) => Response { id, result: ResultVal::Cameras(cs), error: None },
        WorkReply::Image(Ok(s)) => Response { id, result: ResultVal::Image(s), error: None },
        WorkReply::Image(Err(e)) => Response {
            id,
            result: ResultVal::Null,
            error: Some(String::from_str("Capture error: ").concat(e.as_str())),
        },
        WorkReply::Verify(Ok(v)) => Response { id, result: ResultVal::Verify(v), error: None },
        WorkReply::Verify(Err(e)) => Response {
            id,
            result: ResultVal::Null,
            error: Some(String::from_str("Verification error: ").concat(e.as_str())),
        },
    }
}

/// Handles one frame of one connection: an oversized frame is answered
/// with the "too large" error without any attempt to decode it; a frame
/// within the ceiling that does not decode is answered with the error
/// text describing the decode problem, id unset; a decoded request is
/// dispatched by the method table, its correlation token preserved.
/// Every frame yields exactly one action, and an offloaded unit always
/// carries its method's deadline.
pub fn process_line(line: &str, version: &str, socket_path: &str) -> (r: LineAction)
    ensures
        line.spec_bytes().len() <= usize::MAX && line.spec_bytes().len() > crate::MAX_LINE_BYTES
            ==> (r matches LineAction::Respond(resp)
            && resp@ == (ResponseView {
            id: None,
            result: ResultValView::Null,
            error: Some("Payload too large"@),
        })),
        line.spec_bytes().len() <= crate::MAX_LINE_BYTES ==> (match crate::parse::decoded_request(
            line@,
        ) {
            Ok(t) => plan_matches(r, t.0, t.1, t.2, version@, socket_path@),
            Err(m) => (r matches LineAction::Respond(resp) && resp@ == (ResponseView {
                id: None,
                result: ResultValView::Null,
                error: Some("Invalid JSON: "@ + m),
            })),
        }),
        line.spec_bytes().len() <= crate::MAX_LINE_BYTES ==> (r matches LineAction::Respond(resp)
            ==> resp@.error != Some("Payload too large"@)),
        r matches LineAction::Respond(resp) ==> wf_response(resp@),
        r matches LineAction::Offload { id, unit, timeout_secs } ==> timeout_secs
            == (match unit {
            WorkUnit::ListCameras => 5u64,
            WorkUnit::CaptureThumbnail(_) => 15u64,
            WorkUnit::VerifyOnce(_) => 10u64,
        }),
{
    proof {
        reveal_strlit("ping");
        reveal_strlit("status");
        reveal_strlit("list_cameras");
        reveal_strlit("capture_thumbnail");
        reveal_strlit("verify_once");
        reveal_strlit("Payload too large");
        reveal_strlit("Invalid JSON: ");
        reveal_strlit("Unknown method: ");
    }
    if crate::frame_too_large(line.len()) {
        return LineAction::Respond(response_too_large());
    }
    match crate::parse::decode_line(line) {
        Err(msg) => {
            let resp = response_invalid(msg);
            proof {
                assert(("Invalid JSON: "@ + msg@)[0] == 'I');
                assert("Invalid JSON: "@ + msg@ != "Payload too large"@);
            }
            LineAction::Respond(resp)
        },
        Ok(req) => {
            let r = plan_request(req, version, socket_path);
            proof {
                if !is_known_method(req.method@) {
                    assert(("Unknown method: "@ + req.method@)[0] == 'U');
                    assert("Unknown method: "@ + req.method@ != "Payload too large"@);
                }
            }
            r
        },
    }
}

} // verus!
