//! Removing a stored file together with its thumbnail.

use vstd::prelude::*;
use vstd::string::StringExecFns;
use crate::config::Opt;
use crate::error::WebError;
use crate::status::SEE_OTHER;
use crate::helpers::{
    filename_path, is_safe_name, is_sanitized, sanitized_name, spec_filename_path,
    spec_thumbnail_filename_path, thumbnail_filename_path,
};

verus! {

/// The form a client sends to have a file removed.
#[derive(Clone, Debug, PartialEq, Eq)]
pub struct DeleteRequest {
    /// The name of the stored file.
    pub filename: String,
}

/// The two files to remove: the stored file, whose removal has to succeed,
/// and its thumbnail, which need not exist.
#[derive(Clone, Debug, PartialEq, Eq)]
pub struct DeletePlan {
    /// Path of the stored file.
    pub file: String,
    /// Path of its thumbnail.
    pub thumbnail: String,
}

/// The answer to a removal that was carried out: a redirect to the list.
#[derive(Clone, Debug, PartialEq, Eq)]
pub struct DeleteResponse {
    /// HTTP status code.
    pub status: u16,
    /// Value of the `Location` header.
    pub location: String,
    /// Body of the answer.
    pub body: String,
}

/// Decides on a request to remove a file. A name that is not a stored name
/// as it stands (it holds a path separator, is `.` or `..`, or would be
/// changed in any other way on being stored) is a bad request; for any
/// other name the stored file of that name and its thumbnail are to be
/// removed.
pub fn handle_delete(form: &DeleteRequest, opt: &Opt) -> (plan: Result<DeletePlan, WebError>)
    ensures
        match plan {
            Ok(paths) => {
                &&& sanitized_name(form.filename@) == form.filename@
                &&& is_safe_name(form.filename@)
                &&& paths.file@ == spec_filename_path(form.filename@, opt.base_dir@)
                &&& paths.thumbnail@ == spec_thumbnail_filename_path(
                    form.filename@,
                    opt.base_dir@,
                )
            },
            Err(error) => error == WebError::BadRequest && sanitized_name(form.filename@)
                != form.filename@,
        },
{
    if !is_sanitized(form.filename.as_str()) {
        return Err(WebError::BadRequest);
    }
    Ok(
        DeletePlan {
            file: filename_path(form.filename.as_str(), opt),
            thumbnail: thumbnail_filename_path(form.filename.as_str(), opt),
        },
    )
}

/// Concludes a removal from what became of the two files. `Ok` stands for
/// a file removed, `Err` holds why it could not be. That the stored file
/// could not be removed fails the request; what became of the thumbnail
/// changes nothing.
pub fn finish_delete(file: Result<(), String>, thumbnail: Result<(), String>) -> (response: Result<
    DeleteResponse,
    WebError,
>)
    ensures
        match response {
            Ok(redirect) => {
                &&& file is Ok
                &&& redirect.status == SEE_OTHER
                &&& redirect.location@ == "recent"@
                &&& redirect.body@ == "deleted"@
            },
            Err(error) => file matches Err(detail) && error == WebError::IoError(detail),
        },
{
    match file {
        Ok(_) => Ok(
            DeleteResponse {
                status: SEE_OTHER,
                location: String::from_str("recent"),
                body: String::from_str("deleted"),
            },
        ),
        Err(detail) => Err(WebError::IoError(detail)),
    }
}

} // verus!
