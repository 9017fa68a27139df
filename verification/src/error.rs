use vstd::prelude::*;
use vstd::string::StringExecFns;

use crate::json::clone_json;
use crate::json::json_parse_of;
use crate::json::json_parses;
use crate::json::json_u64_of;
use crate::json::json_u64_member;
use crate::json::parse_json;
use crate::strutil::dec_str_spec;
use crate::strutil::u64_to_string;

verus! {

/// Errors the vendor's two status layers are classified into. The vendor
/// reports an outcome twice: in the transport-level HTTP status, and in a
/// `status` integer embedded in the JSON body.
///
/// `NotImplemented`, `UnAuthorized` and `AnErrorOccurred` are reserved for
/// vendor status codes not yet mapped by the classifier; no branch of
/// `classify_envelope` produces them today. Whether to map further numeric
/// ranges onto them is an open question of the taxonomy.
#[derive(Debug, Clone, PartialEq)]
pub enum WithingsApiError {
    AuthenticationFailed { status: u64, request: String, response: String },
    InvalidParams { status: u64, request: String, response: String },
    NotImplemented { status: u64, request: String, response: String },
    UnAuthorized { status: u64, request: String, response: String },
    AnErrorOccurred { status: u64, request: String, response: String },
    InternalServerError { status: u16, request: String, response: String },
}

/// A failed call: either a classified vendor error, or a failure to make
/// sense of the response body at all.
#[derive(Debug, Clone, PartialEq)]
pub enum ResponseError {
    /// The vendor reported an error through one of its two status layers.
    Api(WithingsApiError),
    /// The body parsed as JSON, but its `status` member is absent or not an
    /// unsigned integer.
    BodyStatusUnparseable { request: String, response: String },
    /// The body's `status` member is a number outside every mapped range.
    UnrecognizedStatus { status: u64, request: String, response: String },
    /// The body is not JSON, or a success body did not decode as the
    /// expected payload.
    DataFormat { request: String, response: String, detail: String },
}

/// The one-line rendering of a classified vendor error: the status that
/// decided the classification, then the rendered request and raw response
/// kept for diagnosis.
pub open spec fn error_message_spec(status: nat, request: Seq<char>, response: Seq<char>) -> Seq<
    char,
> {
    "Status: "@ + dec_str_spec(status) + " Req: "@ + request + " Res: "@ + response
}

fn render_message(status: u64, request: &String, response: &String) -> (r: String)
    ensures
        r@ == error_message_spec(status as nat, request@, response@),
{
    let mut m = String::from_str("Status: ");
    m.append(u64_to_string(status).as_str());
    m.append(" Req: ");
    m.append(request.as_str());
    m.append(" Res: ");
    m.append(response.as_str());
    proof {
        assert(m@ =~= error_message_spec(status as nat, request@, response@));
    }
    m
}

impl WithingsApiError {
    /// Renders the error as one line, every variant in the same shape.
    pub fn describe(&self) -> (r: String)
        ensures
            r@ == (match *self {
                WithingsApiError::AuthenticationFailed { status, request, response } =>
                    error_message_spec(status as nat, request@, response@),
                WithingsApiError::InvalidParams { status, request, response } =>
                    error_message_spec(status as nat, request@, response@),
                WithingsApiError::NotImplemented { status, request, response } =>
                    error_message_spec(status as nat, request@, response@),
                WithingsApiError::UnAuthorized { status, request, response } =>
                    error_message_spec(status as nat, request@, response@),
                WithingsApiError::AnErrorOccurred { status, request, response } =>
                    error_message_spec(status as nat, request@, response@),
                WithingsApiError::InternalServerError { status, request, response } =>
                    error_message_spec(status as nat, request@, response@),
            }),
    {
        match self {
            WithingsApiError::AuthenticationFailed { status, request, response } =>
                render_message(*status, request, response),
            WithingsApiError::InvalidParams { status, request, response } =>
                render_message(*status, request, response),
            WithingsApiError::NotImplemented { status, request, response } =>
                render_message(*status, request, response),
            WithingsApiError::UnAuthorized { status, request, response } =>
                render_message(*status, request, response),
            WithingsApiError::AnErrorOccurred { status, request, response } =>
                render_message(*status, request, response),
            WithingsApiError::InternalServerError { status, request, response } =>
                render_message(*status as u64, request, response),
        }
    }
}

/// Whether `e` carries the rendered request and the raw response text it
/// was classified from: every error does, so a failed call can be
/// diagnosed without re-issuing it.
pub open spec fn error_carries_context(e: ResponseError, request: String, response: String) -> bool {
    match e {
        ResponseError::Api(a) => match a {
            WithingsApiError::AuthenticationFailed { request: rq, response: rs, .. } => rq
                == request && rs == response,
            WithingsApiError::InvalidParams { request: rq, response: rs, .. } => rq == request
                && rs == response,
            WithingsApiError::NotImplemented { request: rq, response: rs, .. } => rq == request
                && rs == response,
            WithingsApiError::UnAuthorized { request: rq, response: rs, .. } => rq == request
                && rs == response,
            WithingsApiError::AnErrorOccurred { request: rq, response: rs, .. } => rq == request
                && rs == response,
            WithingsApiError::InternalServerError { request: rq, response: rs, .. } => rq
                == request && rs == response,
        },
        ResponseError::BodyStatusUnparseable { request: rq, response: rs } => rq == request && rs
            == response,
        ResponseError::UnrecognizedStatus { request: rq, response: rs, .. } => rq == request && rs
            == response,
        ResponseError::DataFormat { request: rq, response: rs, .. } => rq == request && rs
            == response,
    }
}

/// Transport-level success: any HTTP status in the 2xx range.
pub open spec fn http_success(status: u16) -> bool {
    200 <= status < 300
}

/// Vendor status codes reported as authentication failures.
pub open spec fn vendor_auth_failed(s: u64) -> bool {
    s == 100 || s == 101 || s == 102 || s == 200
}

/// Vendor status codes reported as invalid parameters.
pub open spec fn vendor_invalid_params(s: u64) -> bool {
    501 <= s <= 511
}

/// A payload type that can be decoded out of the vendor's JSON response.
pub trait JsonDecodable: Sized {
    /// Whether `v` holds a well-formed payload of this type.
    spec fn decodable(v: serde_json::Value) -> bool;

    /// Whether `self` is the payload read out of `v`.
    spec fn is_decode_of(&self, v: serde_json::Value) -> bool;

    /// Decodes the payload out of `v`; `None` exactly on a malformed one.
    fn decode(v: &serde_json::Value) -> (r: Option<Self>)
        ensures
            (match r {
                Some(u) => Self::decodable(*v) && u.is_decode_of(*v),
                None => !Self::decodable(*v),
            }),
    ;
}

impl JsonDecodable for serde_json::Value {
    /// Any JSON document is itself a valid untyped payload.
    open spec fn decodable(v: serde_json::Value) -> bool {
        true
    }

    /// The untyped payload is the document, unchanged.
    open spec fn is_decode_of(&self, v: serde_json::Value) -> bool {
        *self == v
    }

    fn decode(v: &serde_json::Value) -> (r: Option<Self>) {
        Some(clone_json(v))
    }
}

/// What classifying the parsed document `v` must yield: the embedded
/// `status` member decides. Absent or non-numeric fails as unparseable;
/// `0` decodes the payload (a malformed payload is a data format error);
/// `100`, `101`, `102` and `200` fail as authentication errors; `501`
/// through `511` inclusive fail as invalid parameters; every other number
/// falls into the unrecognized bucket. Every error carries the rendered
/// request and the raw response text.
pub open spec fn classified<U: JsonDecodable>(
    r: Result<U, ResponseError>,
    request: String,
    response: String,
    v: serde_json::Value,
) -> bool {
    match json_u64_of(v, "status"@) {
        None => (r matches Err(ResponseError::BodyStatusUnparseable { request: rq, response: rs })
            && rq == request && rs == response),
        Some(s) => {
            if s == 0 {
                if U::decodable(v) {
                    r matches Ok(u) && u.is_decode_of(v)
                } else {
                    r matches Err(ResponseError::DataFormat { request: rq, response: rs, .. })
                        && rq == request && rs == response
                }
            } else if vendor_auth_failed(s) {
                r matches Err(ResponseError::Api(WithingsApiError::AuthenticationFailed {
                    status: st,
                    request: rq,
                    response: rs,
                })) && st == s && rq == request && rs == response
            } else if vendor_invalid_params(s) {
                r matches Err(ResponseError::Api(WithingsApiError::InvalidParams {
                    status: st,
                    request: rq,
                    response: rs,
                })) && st == s && rq == request && rs == response
            } else {
                r matches Err(ResponseError::UnrecognizedStatus {
                    status: st,
                    request: rq,
                    response: rs,
                }) && st == s && rq == request && rs == response
            }
        },
    }
}

/// Classifies a successfully transported, successfully parsed response
/// body, exactly as `classified` states.
pub fn classify_envelope<U: JsonDecodable>(
    request: String,
    response: String,
    v: &serde_json::Value,
) -> (r: Result<U, ResponseError>)
    ensures
        classified(r, request, response, *v),
        r matches Err(e) ==> error_carries_context(e, request, response),
{
    match json_u64_member(v, "status") {
        None => Err(ResponseError::BodyStatusUnparseable { request, response }),
        Some(s) => {
            if s == 0 {
                match U::decode(v) {
                    Some(u) => Ok(u),
                    None => Err(ResponseError::DataFormat {
                        request,
                        response,
                        detail: String::from_str("payload did not decode"),
                    }),
                }
            } else if s == 100 || s == 101 || s == 102 || s == 200 {
                Err(ResponseError::Api(WithingsApiError::AuthenticationFailed {
                    status: s,
                    request,
                    response,
                }))
            } else if 501 <= s && s <= 511 {
                Err(ResponseError::Api(WithingsApiError::InvalidParams {
                    status: s,
                    request,
                    response,
                }))
            } else {
                Err(ResponseError::UnrecognizedStatus { status: s, request, response })
            }
        },
    }
}

/// Classifies a raw HTTP response into a decoded payload or one error.
///
/// A transport status outside 2xx fails at once as an internal server
/// error carrying that exact status, the rendered request and the raw body
/// (the body is owned here: it can only be read once, so it travels into
/// the error). On a 2xx status a body that is not JSON fails as a data
/// format error with no classification attempted; one that parses is
/// classified by the embedded vendor status, exactly as `classified`
/// states of the parsed document.
pub fn handle_response<U: JsonDecodable>(http_status: u16, request: String, body: String) -> (r:
    Result<U, ResponseError>)
    ensures
        !http_success(http_status) ==> (r matches Err(ResponseError::Api(
            WithingsApiError::InternalServerError { status: st, request: rq, response: rs },
        )) && st == http_status && rq == request && rs == body),
        http_success(http_status) ==> (if json_parses(body@) {
            classified(r, request, body, json_parse_of(body@))
        } else {
            r matches Err(ResponseError::DataFormat { request: rq, response: rs, .. }) && rq
                == request && rs == body
        }),
        r matches Err(e) ==> error_carries_context(e, request, body),
{
    if !(200 <= http_status && http_status < 300) {
        return Err(ResponseError::Api(WithingsApiError::InternalServerError {
            status: http_status,
            request,
            response: body,
        }));
    }
    match parse_json(body.as_str()) {
        Err(msg) => Err(ResponseError::DataFormat { request, response: body, detail: msg }),
        Ok(v) => classify_envelope(request, body, &v),
    }
}

} // verus!
