//! The save pipeline: validate the data URL, decode its payload, and plan
//! the write of a timestamped PNG file.
//!
//! The pipeline is a single linear pass. A request either reaches a fully
//! planned write — decoded bytes, filename and destination path — or fails
//! at the first failing stage with a precise error; no stage is retried.
//! Nothing here touches the filesystem: the host performs the planned
//! write and hands its outcome to [`finish_save`].

use vstd::prelude::*;

use crate::codec::{base64_chars, decode_standard, is_base64};
use crate::timestamp::{filename_chars, filename_for, Timestamp};

verus! {

/// A request to save one image: the data URL produced by the caller.
pub struct SaveRequest {
    pub data_url: String,
}

/// Why a save failed. Every variant carries or names a human-readable
/// cause; [`SaveError::message`] renders it.
#[derive(Debug)]
pub enum SaveError {
    /// The input lacks the `data:image/png;base64,` prefix.
    InvalidFormat,
    /// The payload is not valid standard base64; carries the decoder's
    /// description of the failure.
    DecodeError(String),
    /// The platform downloads directory could not be resolved.
    DirectoryNotFound,
    /// The filesystem write failed; carries the description of the
    /// underlying I/O failure.
    WriteError(String),
}

/// The structured outcome reported to the caller on success.
#[derive(Debug)]
pub struct SaveResult {
    pub success: bool,
    pub message: String,
    pub file_path: Option<String>,
}

/// A fully planned write: the decoded image bytes, the generated filename,
/// and the destination path the host should write to.
#[derive(Debug)]
pub struct PlannedWrite {
    pub filename: String,
    pub file_path: String,
    pub bytes: Vec<u8>,
}

/// The required data-URL prefix.
pub open spec fn png_prefix_chars() -> Seq<char> {
    "data:image/png;base64,"@
}

/// Whether `s` starts with the PNG data-URL prefix.
pub open spec fn has_png_prefix(s: Seq<char>) -> bool {
    &&& s.len() >= png_prefix_chars().len()
    &&& s.subrange(0, png_prefix_chars().len() as int) == png_prefix_chars()
}

/// The payload after the prefix: everything past the first (and only the
/// first) occurrence of the prefix at the start of `s`.
pub open spec fn payload_chars(s: Seq<char>) -> Seq<char> {
    s.subrange(png_prefix_chars().len() as int, s.len() as int)
}

/// `dir` and `name` joined with a single `/` separator, which is elided
/// when `dir` already ends with one.
pub open spec fn join_chars(dir: Seq<char>, name: Seq<char>) -> Seq<char> {
    if dir.len() > 0 && dir.last() == '/' {
        dir + name
    } else {
        dir + seq!['/'] + name
    }
}

/// The success message `Image saved as <filename>`.
pub open spec fn success_message_chars(filename: Seq<char>) -> Seq<char> {
    "Image saved as "@ + filename
}

/// The destination path always ends with the generated filename, whatever
/// directory it is joined to.
pub proof fn lemma_join_ends_with_name(dir: Seq<char>, name: Seq<char>)
    ensures
        join_chars(dir, name).len() >= name.len(),
        join_chars(dir, name).subrange(
            join_chars(dir, name).len() - name.len(),
            join_chars(dir, name).len() as int,
        ) =~= name,
{
}

impl SaveError {
    /// The message text of this error, over the views.
    pub open spec fn message_chars(self) -> Seq<char> {
        match self {
            SaveError::InvalidFormat => "Invalid data URL format"@,
            SaveError::DecodeError(e) => "Failed to decode base64: "@ + e@,
            SaveError::DirectoryNotFound => "Could not find downloads directory"@,
            SaveError::WriteError(e) => "Failed to write file: "@ + e@,
        }
    }

    /// Renders the human-readable description of the failure, the entire
    /// error payload exposed across the host boundary.
    pub fn message(&self) -> (r: String)
        ensures
            r@ == self.message_chars(),
    {
        match self {
            SaveError::InvalidFormat => String::from_str("Invalid data URL format"),
            SaveError::DecodeError(e) => String::from_str("Failed to decode base64: ").concat(
                e.as_str(),
            ),
            SaveError::DirectoryNotFound => String::from_str(
                "Could not find downloads directory",
            ),
            SaveError::WriteError(e) => String::from_str("Failed to write file: ").concat(
                e.as_str(),
            ),
        }
    }
}

/// Checks that `s` starts with the PNG data-URL prefix and returns the
/// payload after it; strips exactly one occurrence of the prefix.
fn split_data_url(s: &str) -> (r: Option<&str>)
    ensures
        r is Some <==> has_png_prefix(s@),
        r matches Some(p) ==> p@ == payload_chars(s@),
{
    let prefix = "data:image/png;base64,";
    proof {
        reveal_strlit("data:image/png;base64,");
    }
    let n = s.unicode_len();
    let plen = prefix.unicode_len();
    if n < plen {
        return None;
    }
    let head = s.substring_char(0, plen);
    if String::from_str(head) == String::from_str(prefix) {
        Some(s.substring_char(plen, n))
    } else {
        None
    }
}

/// Joins the destination directory and the filename with a `/` separator,
/// elided when the directory already ends with one.
pub fn destination_path(dir: &str, name: &str) -> (r: String)
    ensures
        r@ == join_chars(dir@, name@),
{
    let n = dir.unicode_len();
    let mut out = String::from_str(dir);
    if n == 0 || dir.get_char(n - 1) != '/' {
        out.append("/");
        proof {
            reveal_strlit("/");
        }
    }
    out.append(name);
    proof {
        assert(out@ =~= join_chars(dir@, name@));
    }
    out
}

/// Plans the save of `request` into the directory `dir` at the clock
/// reading `now`: validates the data-URL prefix, decodes the base64
/// payload, and derives the timestamped filename and destination path.
///
/// The stages decide exactly as stated: a missing prefix fails with
/// `InvalidFormat` before any decoding, a malformed payload fails with
/// `DecodeError`, and every valid request is planned. No filesystem access
/// happens here, so a failed request performs no write.
pub fn save_plan(request: &SaveRequest, dir: &str, now: &Timestamp) -> (r: Result<
    PlannedWrite,
    SaveError,
>)
    requires
        now.wf(),
    ensures
        (r matches Err(e) && e is InvalidFormat) <==> !has_png_prefix(request.data_url@),
        (r matches Err(e) && e is DecodeError) <==> (has_png_prefix(request.data_url@)
            && !is_base64(payload_chars(request.data_url@))),
        r is Ok <==> (has_png_prefix(request.data_url@) && is_base64(
            payload_chars(request.data_url@),
        )),
        r matches Ok(p) ==> {
            &&& base64_chars(p.bytes@) == payload_chars(request.data_url@)
            &&& (p.bytes@.len() == 0 <==> payload_chars(request.data_url@).len() == 0)
            &&& p.filename@ == filename_chars(*now)
            &&& p.file_path@ == join_chars(dir@, filename_chars(*now))
        },
{
    let payload = match split_data_url(request.data_url.as_str()) {
        Some(p) => p,
        None => {
            return Err(SaveError::InvalidFormat);
        },
    };
    let bytes = match decode_standard(payload) {
        Ok(b) => b,
        Err(e) => {
            return Err(SaveError::DecodeError(e));
        },
    };
    let filename = filename_for(now);
    let file_path = destination_path(dir, filename.as_str());
    Ok(PlannedWrite { filename, file_path, bytes })
}

/// Completes a planned save with the outcome the host reports for the
/// write: a success result carrying the message and the written path, or
/// a `WriteError` with the underlying failure's description.
pub fn finish_save(plan: PlannedWrite, write_outcome: Result<(), String>) -> (r: Result<
    SaveResult,
    SaveError,
>)
    ensures
        r is Ok <==> write_outcome is Ok,
        r matches Ok(res) ==> {
            &&& res.success == true
            &&& res.message@ == success_message_chars(plan.filename@)
            &&& res.file_path matches Some(p) && p@ == plan.file_path@
        },
        r matches Err(e) ==> (e matches SaveError::WriteError(m) && m@ == write_outcome->Err_0@),
{
    match write_outcome {
        Ok(()) => {
            let message = String::from_str("Image saved as ").concat(plan.filename.as_str());
            Ok(SaveResult { success: true, message, file_path: Some(plan.file_path) })
        },
        Err(m) => Err(SaveError::WriteError(m)),
    }
}

} // verus!
