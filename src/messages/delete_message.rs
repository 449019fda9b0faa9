//! Deleting a message. The service does not make this idempotent: deleting a
//! message that is already gone is reported as a failure.

use vstd::prelude::*;

use crate::error::{check_reply, reply_outcome, reports, Operation, ResponseError, ZulipError};
use crate::messages::{message_path, message_path_string};
use crate::request::{builds, ApiBase, Method, Request};

verus! {

/// The reply to a deletion.
#[derive(Clone, Debug)]
pub struct DeletedMessageResponse {
    pub error: Option<ResponseError>,
}

impl ApiBase {
    /// The request that deletes message `msg_id`: a `DELETE` with no fields.
    pub fn delete_message_request(&self, msg_id: u64) -> (r: Result<Request, ZulipError>)
        ensures
            builds(self@, message_path(msg_id), Method::Delete, Seq::empty(), true, r),
    {
        let path = message_path_string(msg_id);
        let form: Vec<(String, String)> = Vec::new();
        assert(form.deep_view() =~= Seq::empty());
        self.request(path.as_str(), Method::Delete, form, true)
    }
}

/// Decides the reply to deleting `msg_id`: done where the reply embeds no
/// error, and otherwise a deletion failure that carries the number.
pub fn finish_delete_message(msg_id: u64, resp: DeletedMessageResponse) -> (r: Result<(), ZulipError>)
    ensures
        reply_outcome(Operation::DeleteMessage { id: msg_id }, resp.error, r),
{
    check_reply(Operation::DeleteMessage { id: msg_id }, &resp.error)
}

/// Deleting a message twice: where the first reply embeds no error and the
/// second (the message being gone) embeds one, the first deletion succeeds
/// and the second fails with a deletion failure for the same number.
pub proof fn second_deletion_fails(
    msg_id: u64,
    first: DeletedMessageResponse,
    second: DeletedMessageResponse,
    r1: Result<(), ZulipError>,
    r2: Result<(), ZulipError>,
)
    requires
        first.error is None,
        second.error is Some,
        reply_outcome(Operation::DeleteMessage { id: msg_id }, first.error, r1),
        reply_outcome(Operation::DeleteMessage { id: msg_id }, second.error, r2),
    ensures
        r1 is Ok,
        r2 matches Err(ZulipError::MessageError(m)) && m matches crate::error::MessageError::DeletionFailed {
            id,
            ..
        } && id == msg_id,
{
}

} // verus!
