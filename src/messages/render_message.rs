//! Asking the service to render message source as HTML.

use vstd::prelude::*;

use crate::error::{check_reply, MessageError, Operation, ResponseError, ZulipError};
use crate::request::{builds, ApiBase, Method, Request};

verus! {

/// The reply to a render request.
#[derive(Clone, Debug)]
pub struct RenderResponse {
    pub error: Option<ResponseError>,
    pub rendered: String,
}

/// The one form field of a render request.
pub open spec fn render_fields(content: Seq<char>) -> Seq<(Seq<char>, Seq<char>)> {
    seq![("content"@, content)]
}

/// What a reply to rendering `content` comes to: the rendered HTML where it
/// embeds no error, and otherwise a render failure that carries the content.
pub open spec fn render_outcome(content: Seq<char>, resp: RenderResponse, r: Result<String, ZulipError>) -> bool {
    match resp.error {
        None => r matches Ok(s) && s@ == resp.rendered@,
        Some(e) => r matches Err(ZulipError::MessageError(MessageError::RenderMessageFailed {
            content: c,
            error: t,
        })) && c@ == content && t@ == e.text(),
    }
}

impl ApiBase {
    /// The request that renders `content`: a `POST` to `messages/render`.
    pub fn render_message_request(&self, content: &str) -> (r: Result<Request, ZulipError>)
        ensures
            builds(self@, "messages/render"@, Method::Post, render_fields(content@), true, r),
    {
        let mut form: Vec<(String, String)> = Vec::new();
        form.push((String::from_str("content"), String::from_str(content)));
        assert(form.deep_view() =~= render_fields(content@));
        self.request("messages/render", Method::Post, form, true)
    }
}

/// Decides the reply to rendering `content`.
pub fn finish_render_message(content: &str, resp: RenderResponse) -> (r: Result<String, ZulipError>)
    ensures
        render_outcome(content@, resp, r),
{
    let c = String::from_str(content);
    match check_reply(Operation::RenderMessage { content: c }, &resp.error) {
        Ok(()) => Ok(resp.rendered),
        Err(e) => Err(e),
    }
}

} // verus!
