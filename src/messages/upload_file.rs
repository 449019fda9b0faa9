//! Uploading a file: the local checks that come before any call, and the
//! reply.

use vstd::prelude::*;

use crate::error::{check_reply, reports, FileError, Operation, ResponseError, ZulipError};
use crate::request::ApiBase;
use crate::wire::{file_name_of, path_file_name, url_join};

verus! {

/// The reply to an upload.
#[derive(Clone, Debug)]
pub struct UploadFileResponse {
    /// The address of the file, relative to the server, for use in messages.
    pub url: String,
    pub filename: String,
    pub error: Option<ResponseError>,
}

/// A multipart upload of the file at `path`, sent under the name `file_name`.
#[derive(Clone, Debug)]
pub struct UploadRequest {
    pub url: String,
    pub file_name: String,
    pub path: String,
}

/// What preparing the upload of the file at `path` comes to, where `exists`
/// tells whether a file is there: existence is checked first, then the name.
pub open spec fn upload_prepared(base: Seq<char>, path: Seq<char>, exists: bool, r: Result<UploadRequest, ZulipError>) -> bool {
    if !exists {
        r matches Err(ZulipError::FileError(FileError::FileNotFound(p))) && p@ == path
    } else {
        match path_file_name(path) {
            None => r matches Err(ZulipError::FileError(FileError::FileNameNotFound(p))) && p@ == path,
            Some(name) => match url_join(base, "user_uploads"@) {
                None => r matches Err(ZulipError::UrlParseError(_)),
                Some(u) => r matches Ok(q) && q.url@ == u && q.file_name@ == name && q.path@ == path,
            },
        }
    }
}

/// What a reply to uploading `path` comes to: the reply where it embeds no
/// error, and otherwise an upload failure that carries the path.
pub open spec fn upload_outcome(path: String, resp: UploadFileResponse, r: Result<UploadFileResponse, ZulipError>) -> bool {
    match resp.error {
        None => r matches Ok(x) && x == resp,
        Some(e) => r matches Err(ZulipError::MessageError(m)) && reports(Operation::UploadFile { path }, e.text(), m),
    }
}

impl ApiBase {
    /// Prepares the upload of the file at `path`: a missing file fails first,
    /// before any call; then the remote name is the path's final component.
    pub fn upload_file_request(&self, path: &str, exists: bool) -> (r: Result<UploadRequest, ZulipError>)
        ensures
            upload_prepared(self@, path@, exists, r),
    {
        if !exists {
            return Err(ZulipError::FileError(FileError::FileNotFound(String::from_str(path))));
        }
        let file_name = match file_name_of(path) {
            Some(n) => n,
            None => {
                return Err(ZulipError::FileError(FileError::FileNameNotFound(String::from_str(path))));
            },
        };
        match self.endpoint("user_uploads") {
            Ok(url) => Ok(UploadRequest { url, file_name, path: String::from_str(path) }),
            Err(e) => Err(e),
        }
    }
}

/// Decides the reply to uploading the file at `path`.
pub fn finish_upload_file(path: &String, resp: UploadFileResponse) -> (r: Result<UploadFileResponse, ZulipError>)
    ensures
        upload_outcome(*path, resp, r),
{
    match check_reply(Operation::UploadFile { path: path.clone() }, &resp.error) {
        Ok(()) => Ok(resp),
        Err(e) => Err(e),
    }
}

} // verus!
