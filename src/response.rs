//! Classification of responses by HTTP status and body.
use vstd::prelude::*;
use crate::error::ClientError;
use crate::types::ApiError;

verus! {

/// 2xx.
pub open spec fn success_spec(status: u16) -> bool {
    200 <= status && status < 300
}

/// Whether `status` is in the success range.
pub fn is_success(status: u16) -> (r: bool)
    ensures
        r == success_spec(status),
{
    200 <= status && status < 300
}

/// Classifies a response: a success yields its body for decoding; a failure yields the
/// service's error envelope when the body held one (`envelope`), else the status and raw body.
pub fn classify(status: u16, body: String, envelope: Option<ApiError>) -> (r: Result<String, ClientError>)
    ensures
        success_spec(status) ==> r is Ok && r->Ok_0@ == body@,
        !success_spec(status) && envelope is Some ==> r is Err && r->Err_0 is Api && r->Err_0->Api_0
            == envelope->Some_0,
        !success_spec(status) && envelope is None ==> r is Err && r->Err_0 is Http
            && r->Err_0->status == status && r->Err_0->body@ == body@,
{
    if is_success(status) {
        Ok(body)
    } else {
        match envelope {
            Some(e) => Err(ClientError::Api(e)),
            None => Err(ClientError::Http { status, body }),
        }
    }
}

/// For calls that expect no value: any success is accepted whatever its body; a failure is
/// classified as by `classify`.
pub fn classify_no_content(status: u16, body: String, envelope: Option<ApiError>) -> (r: Result<
    (),
    ClientError,
>)
    ensures
        success_spec(status) <==> r is Ok,
        !success_spec(status) && envelope is Some ==> r is Err && r->Err_0 is Api && r->Err_0->Api_0
            == envelope->Some_0,
        !success_spec(status) && envelope is None ==> r is Err && r->Err_0 is Http
            && r->Err_0->status == status && r->Err_0->body@ == body@,
{
    match classify(status, body, envelope) {
        Ok(_) => Ok(()),
        Err(e) => Err(e),
    }
}

/// The outcome of decoding a success body into the caller's type: a body of the wrong shape
/// is a decode error carrying the decoder's message.
pub fn decoded<T>(parsed: Result<T, String>) -> (r: Result<T, ClientError>)
    ensures
        parsed is Ok ==> r is Ok && r->Ok_0 == parsed->Ok_0,
        parsed is Err ==> r is Err && r->Err_0 is Decode && r->Err_0->Decode_0@ == parsed->Err_0@,
{
    match parsed {
        Ok(v) => Ok(v),
        Err(m) => Err(ClientError::Decode(m)),
    }
}

} // verus!
