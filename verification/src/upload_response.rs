//! The answer to a relayed web upload: one entry per uploaded file, all of
//! the one share, with the link the share is downloaded from.

use vstd::prelude::*;
use crate::text::push_str;
use crate::upload_policy::{TransferType, spec_transfer_name};

verus! {

/// A file row that an upload created, as the answer lists it.
#[derive(Debug)]
pub struct NewFileRow {
    pub id: String,
    pub file_name: String,
    pub file_size: i64,
    pub file_type: String,
    pub description: Option<String>,
    pub relative_path: Option<String>,
    /// Seconds since the epoch.
    pub expires_at: i64,
    /// Seconds since the epoch.
    pub created_at: i64,
}

/// One uploaded file in the answer.
#[derive(Debug)]
pub struct FileShareResponse {
    pub id: String,
    pub share_code: String,
    pub file_name: String,
    pub file_size: i64,
    pub file_type: String,
    pub transfer_type: String,
    pub has_password: bool,
    pub is_one_time: bool,
    pub description: Option<String>,
    pub relative_path: Option<String>,
    /// Seconds since the epoch.
    pub expires_at: i64,
    /// Seconds since the epoch.
    pub created_at: i64,
    pub download_url: String,
    /// The share link as a QR code image, when one could be made.
    pub qr_code: Option<String>,
    /// Whether the uploader is online; not told in an upload's answer.
    pub uploader_online: Option<bool>,
}

/// The answer to an upload: the share's code, how many files it holds, and
/// each of them.
#[derive(Debug)]
pub struct MultipleFileUploadResponse {
    pub share_code: String,
    pub total_count: usize,
    pub files: Vec<FileShareResponse>,
}

/// Where a share is downloaded from.
pub open spec fn share_link(base_url: Seq<char>, code: Seq<char>) -> Seq<char> {
    base_url + "/download?code="@ + code
}

/// The link a share is downloaded from.
pub fn share_download_link(base_url: &str, code: &str) -> (r: String)
    ensures
        r@ == share_link(base_url@, code@),
{
    let mut s = String::new();
    push_str(&mut s, base_url);
    push_str(&mut s, "/download?code=");
    push_str(&mut s, code);
    s
}

/// The view of an optional string.
pub open spec fn opt_text(o: Option<String>) -> Option<Seq<char>> {
    match o {
        Some(s) => Some(s@),
        None => None,
    }
}

/// Whether an answer entry is the row it lists, in the share and with the
/// share's options, link and QR code.
pub open spec fn entry_ok(e: FileShareResponse, row: NewFileRow, code: Seq<char>, link: Seq<char>, qr: Option<Seq<char>>, transfer: TransferType, has_password: bool, is_one_time: bool) -> bool {
    &&& e.id@ == row.id@
    &&& e.file_name@ == row.file_name@
    &&& e.file_size == row.file_size
    &&& e.file_type@ == row.file_type@
    &&& e.share_code@ == code
    &&& e.transfer_type@ == spec_transfer_name(transfer)
    &&& e.has_password == has_password
    &&& e.is_one_time == is_one_time
    &&& opt_text(e.description) == opt_text(row.description)
    &&& opt_text(e.relative_path) == opt_text(row.relative_path)
    &&& e.expires_at == row.expires_at
    &&& e.created_at == row.created_at
    &&& e.download_url@ == link
    &&& opt_text(e.qr_code) == qr
    &&& e.uploader_online is None
}

/// The answer to an upload of share `code` whose rows are `rows`, in upload
/// order: as many entries as rows, each listing its row with the share's
/// code, transfer type, password and one-time flags, download link and
/// QR code of that link (made by the caller, when it could be).
pub fn upload_response(code: &str, base_url: &str, qr_code: Option<&str>, transfer: TransferType, has_password: bool, is_one_time: bool, rows: &Vec<NewFileRow>) -> (r: MultipleFileUploadResponse)
    ensures
        r.share_code@ == code@,
        r.total_count == rows@.len(),
        r.files@.len() == rows@.len(),
        forall|k: int| 0 <= k < rows@.len() ==> entry_ok(#[trigger] r.files@[k], rows@[k], code@,
            share_link(base_url@, code@), opt_str_view(qr_code), transfer, has_password, is_one_time),
{
    let link = share_download_link(base_url, code);
    let mut files: Vec<FileShareResponse> = Vec::new();
    let mut k: usize = 0;
    while k < rows.len()
        invariant
            0 <= k <= rows@.len(),
            files@.len() == k,
            link@ == share_link(base_url@, code@),
            forall|j: int| 0 <= j < k ==> entry_ok(#[trigger] files@[j], rows@[j], code@, link@, opt_str_view(qr_code), transfer, has_password, is_one_time),
        decreases rows@.len() - k,
    {
        let row = &rows[k];
        files.push(FileShareResponse {
            id: copy_of(row.id.as_str()),
            share_code: copy_of(code),
            file_name: copy_of(row.file_name.as_str()),
            file_size: row.file_size,
            file_type: copy_of(row.file_type.as_str()),
            transfer_type: copy_of(transfer.as_str()),
            has_password,
            is_one_time,
            description: copy_opt(&row.description),
            relative_path: copy_opt(&row.relative_path),
            expires_at: row.expires_at,
            created_at: row.created_at,
            download_url: copy_of(link.as_str()),
            qr_code: match qr_code {
                Some(q) => Some(copy_of(q)),
                None => None,
            },
            uploader_online: None,
        });
        k = k + 1;
    }
    let total_count = files.len();
    MultipleFileUploadResponse { share_code: copy_of(code), total_count, files }
}

/// The view of an optional text.
pub open spec fn opt_str_view(o: Option<&str>) -> Option<Seq<char>> {
    match o {
        Some(s) => Some(s@),
        None => None,
    }
}

/// A copy of an optional string.
fn copy_opt(o: &Option<String>) -> (r: Option<String>)
    ensures
        opt_text(r) == opt_text(*o),
{
    match o {
        Some(s) => Some(copy_of(s.as_str())),
        None => None,
    }
}

/// A new string with the text of `s`.
fn copy_of(s: &str) -> (r: String)
    ensures
        r@ == s@,
{
    let mut t = String::new();
    push_str(&mut t, s);
    t
}

} // verus!
