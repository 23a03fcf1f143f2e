use vstd::prelude::*;

use crate::error::Error;
use crate::model::OpenCloudError;

verus! {

/// A reply body as decoded by the caller: the expected payload for a 2xx
/// status, the API's error body for any other, each with the decoder's
/// complaint when the body could not be decoded.
pub enum ReplyBody<T> {
    Payload(Result<T, String>),
    Rejection(Result<OpenCloudError, String>),
}

pub open spec fn is_transport_failure(e: Error, description: Seq<char>) -> bool {
    e is TransportFailure && e->description@ == description
}

pub open spec fn is_remote_rejection(e: Error, code: Seq<char>, message: Seq<char>) -> bool {
    e is RemoteRejection && e->RemoteRejection_code@ == code && e->RemoteRejection_message@
        == message
}

/// Turns a decoded reply into the operation's outcome: the payload on success;
/// the API's code and message when it rejected the request; a transport
/// failure, never an empty result, when the body could not be decoded.
pub fn settle_reply<T>(body: ReplyBody<T>) -> (r: Result<T, Error>)
    ensures
        match body {
            ReplyBody::Payload(Ok(t)) => r == Ok::<T, Error>(t),
            ReplyBody::Payload(Err(d)) => r is Err && is_transport_failure(r->Err_0, d@),
            ReplyBody::Rejection(Ok(e)) => r is Err && is_remote_rejection(
                r->Err_0,
                e.code@,
                e.message@,
            ),
            ReplyBody::Rejection(Err(d)) => r is Err && is_transport_failure(r->Err_0, d@),
        },
{
    match body {
        ReplyBody::Payload(Ok(t)) => Ok(t),
        ReplyBody::Payload(Err(d)) => Err(Error::TransportFailure { description: d }),
        ReplyBody::Rejection(Ok(e)) => Err(
            Error::RemoteRejection { code: e.code, message: e.message },
        ),
        ReplyBody::Rejection(Err(d)) => Err(Error::TransportFailure { description: d }),
    }
}

} // verus!
