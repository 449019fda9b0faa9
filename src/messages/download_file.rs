//! Downloading a file by the address an upload returned.

use vstd::prelude::*;

use crate::error::ZulipError;
use crate::request::{builds, ApiBase, Method, Request};

verus! {

impl ApiBase {
    /// The request that downloads the file at `url`, which may be relative to
    /// the API root: a `GET` with no fields.
    pub fn download_file_request(&self, url: &str) -> (r: Result<Request, ZulipError>)
        ensures
            builds(self@, url@, Method::Get, Seq::empty(), true, r),
    {
        let form: Vec<(String, String)> = Vec::new();
        assert(form.deep_view() =~= Seq::empty());
        self.request(url, Method::Get, form, true)
    }
}

} // verus!
