//! Download decisions: which stored file a request names, who may fetch it,
//! which files of a share go into one ZIP archive and under which names, and
//! who may revoke a share.

use vstd::prelude::*;
use crate::api_error::{AppError, AppErrorView, err_view, res_view};
use crate::share_password::{
    bcrypt_verdict, check_share_password, opt_str, spec_check_share_password, spec_password_verdict,
    verification_failed_message,
};
use crate::text::{push_str, views};
use crate::zip_names::{UsedNames, sanitize_zip_entry_name, spec_entry_name};

verus! {

/// A stored file of a share, as the download logic reads it.
pub struct FileShare {
    pub id: String,
    pub file_name: String,
    pub file_size: i64,
    pub file_type: String,
    pub storage_key: String,
    /// `storage` or `p2p`.
    pub transfer_type: String,
    pub password_hash: Option<String>,
    pub is_one_time: bool,
    pub user_id: Option<String>,
    pub device_id: Option<String>,
}

/// The view of an optional string.
pub open spec fn opt_view(o: Option<String>) -> Option<Seq<char>> {
    match o {
        Some(s) => Some(s@),
        None => None,
    }
}

/// Seconds a presigned download URL stays valid.
pub const DOWNLOAD_URL_EXPIRY_SECS: u64 = 3600;

/// Most files one ZIP download may hold.
pub const MAX_BULK_FILE_COUNT: usize = 50;

/// Largest total size of one ZIP download (150 MiB).
pub const MAX_BULK_TOTAL_BYTES: i64 = 157286400;

/// Message of a P2P share fetched over HTTP.
pub open spec fn p2p_only_message() -> Seq<char> {
    "This file is configured for P2P transfer. Use WebRTC connection."@
}

/// Message of a protected single download without the password header.
pub open spec fn password_header_message() -> Seq<char> {
    "Password required. Set the X-File-Password header."@
}

/// Whether a file travels peer to peer.
pub open spec fn is_p2p(f: FileShare) -> bool {
    f.transfer_type@ == "p2p"@
}

/// The first file from index `j` on whose id is `id`.
pub open spec fn find_from(files: Seq<FileShare>, id: Seq<char>, j: int) -> Option<int>
    decreases files.len() - j,
{
    if j < 0 || j >= files.len() {
        None
    } else if files[j].id@ == id {
        Some(j)
    } else {
        find_from(files, id, j + 1)
    }
}

/// The file a single download names: the share must exist, the file must
/// be one of its files, and (unless `allow_p2p`, as for a preview) it must
/// not be a P2P file.
pub open spec fn spec_find_requested(files: Seq<FileShare>, id: Seq<char>, allow_p2p: bool) -> Result<usize, AppErrorView> {
    if files.len() == 0 {
        Err(AppErrorView::NotFound("File not found or expired"@))
    } else {
        match find_from(files, id, 0) {
            None => Err(AppErrorView::NotFound("File not found"@)),
            Some(i) => if !allow_p2p && is_p2p(files[i]) {
                Err(AppErrorView::Forbidden(p2p_only_message()))
            } else {
                Ok(i as usize)
            },
        }
    }
}

/// Whether a text reads `p2p`.
fn is_p2p_text(s: &String) -> (r: bool)
    ensures
        r == (s@ == "p2p"@),
{
    let p = "p2p".to_string();
    *s == p
}

/// Finds the file a single download or preview names.
pub fn find_requested_file(files: &Vec<FileShare>, file_id: &str, allow_p2p: bool) -> (r: Result<usize, AppError>)
    ensures
        res_view(r) == spec_find_requested(files@, file_id@, allow_p2p),
        r matches Ok(i) ==> i < files@.len(),
{
    if files.len() == 0 {
        return Err(AppError::NotFound("File not found or expired".to_string()));
    }
    let id = file_id.to_string();
    let mut i: usize = 0;
    while i < files.len()
        invariant
            0 <= i <= files.len(),
            id@ == file_id@,
            files@.len() > 0,
            find_from(files@, id@, 0) == find_from(files@, id@, i as int),
        decreases files.len() - i,
    {
        if files[i].id == id {
            if !allow_p2p && is_p2p_text(&files[i].transfer_type) {
                return Err(AppError::Forbidden(
                    "This file is configured for P2P transfer. Use WebRTC connection.".to_string(),
                ));
            }
            return Ok(i);
        }
        i = i + 1;
    }
    Err(AppError::NotFound("File not found".to_string()))
}

/// The checks of a single download: the file, then its password, read
/// from the `X-File-Password` header.
pub open spec fn spec_single_download(files: Seq<FileShare>, id: Seq<char>, allow_p2p: bool, supplied: Option<Seq<char>>) -> Result<usize, AppErrorView> {
    match spec_find_requested(files, id, allow_p2p) {
        Err(e) => Err(e),
        Ok(i) => match spec_check_share_password(opt_view(files[i as int].password_hash), supplied, password_header_message(), verification_failed_message()) {
            Some(e) => Err(e),
            None => Ok(i),
        },
    }
}

/// The file a single download, preview or download URL names, once its
/// password is checked.
pub fn authorize_single_download(files: &Vec<FileShare>, file_id: &str, allow_p2p: bool, supplied: Option<&str>) -> (r: Result<usize, AppError>)
    ensures
        res_view(r) == spec_single_download(files@, file_id@, allow_p2p, opt_str(supplied)),
        r matches Ok(i) ==> i < files@.len(),
{
    let i = find_requested_file(files, file_id, allow_p2p)?;
    let hash: Option<&str> = match &files[i].password_hash {
        Some(h) => Some(h.as_str()),
        None => None,
    };
    check_share_password(hash, supplied, "Password required. Set the X-File-Password header.", "Password verification failed")?;
    Ok(i)
}

/// The first file with id `id`.
pub fn find_file_by_id(files: &Vec<FileShare>, id: &str) -> (r: Option<usize>)
    ensures
        match r {
            Some(i) => find_from(files@, id@, 0) == Some(i as int) && i < files@.len(),
            None => find_from(files@, id@, 0) is None,
        },
{
    let key = id.to_string();
    let mut i: usize = 0;
    while i < files.len()
        invariant
            0 <= i <= files.len(),
            key@ == id@,
            find_from(files@, id@, 0) == find_from(files@, id@, i as int),
        decreases files.len() - i,
    {
        if files[i].id == key {
            return Some(i);
        }
        i = i + 1;
    }
    None
}

/// Message of a P2P share fetched by the CLI.
pub open spec fn cli_p2p_message() -> Seq<char> {
    "P2P files cannot be downloaded via CLI"@
}

/// The file a CLI download names: the named file of the share, or its
/// first file when none is named; a P2P file is refused.
pub open spec fn spec_cli_select(files: Seq<FileShare>, file_id: Option<Seq<char>>) -> Result<usize, AppErrorView> {
    if files.len() == 0 {
        Err(AppErrorView::NotFound("File not found or expired"@))
    } else {
        let found = match file_id {
            Some(id) => find_from(files, id, 0),
            None => Some(0int),
        };
        match found {
            None => Err(AppErrorView::NotFound("File not found"@)),
            Some(i) => if is_p2p(files[i]) {
                Err(AppErrorView::BadRequest(cli_p2p_message()))
            } else {
                Ok(i as usize)
            },
        }
    }
}

/// The checks of a CLI download: the file, then its password, taken from
/// the `password` query parameter or else the `X-File-Password` header.
pub open spec fn spec_cli_download(files: Seq<FileShare>, file_id: Option<Seq<char>>, query_password: Option<Seq<char>>, header_password: Option<Seq<char>>, missing: Seq<char>) -> Result<usize, AppErrorView> {
    match spec_cli_select(files, file_id) {
        Err(e) => Err(e),
        Ok(i) => {
            let supplied = if query_password is Some { query_password } else { header_password };
            match spec_check_share_password(opt_view(files[i as int].password_hash), supplied, missing, "Failed to verify password"@) {
                Some(e) => Err(e),
                None => Ok(i),
            }
        },
    }
}

/// The file a CLI download or download URL fetches, once its password is
/// checked; `missing` is the endpoint's message for a missing password.
pub fn cli_authorize_download(files: &Vec<FileShare>, file_id: Option<&str>, query_password: Option<&str>, header_password: Option<&str>, missing: &str) -> (r: Result<usize, AppError>)
    ensures
        res_view(r) == spec_cli_download(files@, opt_str(file_id), opt_str(query_password), opt_str(header_password), missing@),
        r matches Ok(i) ==> i < files@.len(),
{
    if files.len() == 0 {
        return Err(AppError::NotFound("File not found or expired".to_string()));
    }
    let i = match file_id {
        Some(id) => match find_file_by_id(files, id) {
            Some(i) => i,
            None => { return Err(AppError::NotFound("File not found".to_string())); },
        },
        None => 0,
    };
    if is_p2p_text(&files[i].transfer_type) {
        return Err(AppError::BadRequest("P2P files cannot be downloaded via CLI".to_string()));
    }
    let supplied = if query_password.is_some() { query_password } else { header_password };
    let hash: Option<&str> = match &files[i].password_hash {
        Some(h) => Some(h.as_str()),
        None => None,
    };
    check_share_password(hash, supplied, missing, "Failed to verify password")?;
    Ok(i)
}

/// Seconds between the expiry of a one-time file's download URL and the
/// deletion of its object.
pub const ONE_TIME_OBJECT_GRACE_SECS: u64 = 60;

/// What issuing a CLI download URL does to the share, once the URL has
/// been made: a one-time file's row is deleted before the URL is returned,
/// and its object when the URL has expired and a minute more has passed.
#[derive(Debug)]
pub struct UrlIssue {
    pub delete_row_now: bool,
    pub delete_object_after_secs: Option<u64>,
}

/// The consumption step of a download URL for a file that is (or is not)
/// one-time.
pub fn url_issue_plan(is_one_time: bool) -> (r: UrlIssue)
    ensures
        r.delete_row_now == is_one_time,
        is_one_time ==> r.delete_object_after_secs == Some((CLI_DOWNLOAD_URL_EXPIRY_SECS + ONE_TIME_OBJECT_GRACE_SECS) as u64),
        !is_one_time ==> r.delete_object_after_secs is None,
{
    if is_one_time {
        UrlIssue { delete_row_now: true, delete_object_after_secs: Some(CLI_DOWNLOAD_URL_EXPIRY_SECS + ONE_TIME_OBJECT_GRACE_SECS) }
    } else {
        UrlIssue { delete_row_now: false, delete_object_after_secs: None }
    }
}

/// The rows of a share once its file `i` was served (streamed, or its
/// download URL issued): a one-time file's row is gone, any other file
/// stays.
pub open spec fn rows_after_serving(files: Seq<FileShare>, i: int) -> Seq<FileShare> {
    if files[i].is_one_time {
        files.remove(i)
    } else {
        files
    }
}

/// Applies the consumption step of serving file `i` (streaming it, or
/// issuing its download URL) to the share's rows.
pub fn consume_served_file(files: &mut Vec<FileShare>, i: usize)
    requires
        i < old(files)@.len(),
    ensures
        final(files)@ == rows_after_serving(old(files)@, i as int),
{
    if files[i].is_one_time {
        files.remove(i);
    }
}

/// No file from `j` on has id `id`, so the search finds nothing.
proof fn lemma_find_absent(files: Seq<FileShare>, id: Seq<char>, j: int)
    requires
        0 <= j,
        forall|k: int| j <= k < files.len() ==> (#[trigger] files[k]).id@ != id,
    ensures
        find_from(files, id, j) is None,
    decreases files.len() - j,
{
    if j < files.len() {
        lemma_find_absent(files, id, j + 1);
    }
}

/// A one-time file is served once: once a request for it (by its id, the
/// ids of the share being distinct, or as the share's only file) was
/// granted and the file streamed or its URL issued, the same request finds
/// nothing.
pub proof fn lemma_one_time_file_served_once(files: Seq<FileShare>, file_id: Option<Seq<char>>, query_password: Option<Seq<char>>, header_password: Option<Seq<char>>, missing: Seq<char>, i: usize)
    requires
        files.len() <= usize::MAX,
        spec_cli_download(files, file_id, query_password, header_password, missing) == Ok::<usize, AppErrorView>(i),
        files[i as int].is_one_time,
        file_id is None ==> files.len() == 1,
        forall|a: int, b: int| 0 <= a < b < files.len() ==> (#[trigger] files[a]).id@ != (#[trigger] files[b]).id@,
    ensures
        spec_cli_download(rows_after_serving(files, i as int), file_id, query_password, header_password, missing)
            matches Err(AppErrorView::NotFound(_)),
{
    let rest = rows_after_serving(files, i as int);
    match file_id {
        None => {
            assert(rest.len() == 0);
        },
        Some(id) => {
            lemma_found_at(files, id, 0);
            assert(spec_cli_select(files, file_id) == Ok::<usize, AppErrorView>(i));
            assert(find_from(files, id, 0) == Some(i as int));
            assert(files[i as int].id@ == id);
            assert forall|k: int| 0 <= k < rest.len() implies (#[trigger] rest[k]).id@ != id by {
                if k < i {
                    assert(rest[k] == files[k]);
                } else {
                    assert(rest[k] == files[k + 1]);
                }
            }
            lemma_find_absent(rest, id, 0);
        },
    }
}

/// What the search finds has the id searched for, and lies in the list.
proof fn lemma_found_at(files: Seq<FileShare>, id: Seq<char>, j: int)
    ensures
        find_from(files, id, j) matches Some(k) ==> j <= k < files.len() && files[k].id@ == id,
    decreases files.len() - j,
{
    if 0 <= j < files.len() && files[j].id@ != id {
        lemma_found_at(files, id, j + 1);
    }
}

/// Seconds a presigned CLI download URL stays valid; a one-time share's
/// object is deleted a minute after that.
pub const CLI_DOWNLOAD_URL_EXPIRY_SECS: u64 = 3600;

/// The two query parameters a single download needs.
pub fn require_download_params(code: Option<&str>, file_id: Option<&str>) -> (r: Result<(), AppError>)
    ensures
        code is None ==> err_view(r) == Some(AppErrorView::BadRequest("code parameter is required"@)),
        code is Some && file_id is None ==> err_view(r) == Some(AppErrorView::BadRequest("file_id parameter is required"@)),
        code is Some && file_id is Some ==> r is Ok,
{
    if code.is_none() {
        return Err(AppError::BadRequest("code parameter is required".to_string()));
    }
    if file_id.is_none() {
        return Err(AppError::BadRequest("file_id parameter is required".to_string()));
    }
    Ok(())
}

/// A flag parameter (`preview`, `inline`) is set only by the text `true`.
pub fn is_true_param(value: Option<&str>) -> (r: bool)
    ensures
        r == (opt_str(value) == Some("true"@)),
{
    match value {
        Some(v) => {
            let s = v.to_string();
            let t = "true".to_string();
            s == t
        },
        None => false,
    }
}

/// The indices of the files among the first `n` whose id was asked for, in
/// the share's order.
pub open spec fn selected_upto(ids: Seq<Seq<char>>, files: Seq<FileShare>, n: int) -> Seq<int>
    decreases n,
{
    if n <= 0 {
        Seq::empty()
    } else if ids.contains(files[n - 1].id@) {
        selected_upto(ids, files, n - 1).push(n - 1)
    } else {
        selected_upto(ids, files, n - 1)
    }
}

/// The files a ZIP download asks for.
pub open spec fn bulk_selection(ids: Seq<Seq<char>>, files: Seq<FileShare>) -> Seq<int> {
    selected_upto(ids, files, files.len() as int)
}

/// The first checks of a ZIP download: some id asked for, a share that
/// exists, and at least one of its files asked for.
pub open spec fn spec_select_bulk(ids: Seq<Seq<char>>, files: Seq<FileShare>) -> Option<AppErrorView> {
    if ids.len() == 0 {
        Some(AppErrorView::BadRequest("At least one file ID is required"@))
    } else if files.len() == 0 {
        Some(AppErrorView::NotFound("File not found or expired"@))
    } else if bulk_selection(ids, files).len() == 0 {
        Some(AppErrorView::NotFound("Requested files not found"@))
    } else {
        None
    }
}

/// The indices as integers.
pub open spec fn ints(v: Seq<usize>) -> Seq<int> {
    Seq::new(v.len(), |i: int| v[i] as int)
}

/// Every index of `s` is below `n`, and they ascend.
pub open spec fn ascending_below(s: Seq<int>, n: int) -> bool {
    &&& forall|k: int| 0 <= k < s.len() ==> 0 <= #[trigger] s[k] < n
    &&& forall|a: int, b: int| 0 <= a < b < s.len() ==> s[a] < s[b]
}

proof fn lemma_selected_ascending(ids: Seq<Seq<char>>, files: Seq<FileShare>, n: int)
    requires
        0 <= n,
    ensures
        ascending_below(selected_upto(ids, files, n), n),
    decreases n,
{
    if n > 0 {
        lemma_selected_ascending(ids, files, n - 1);
    }
}

/// Whether `id` is one of `ids`.
fn contains_id(ids: &Vec<String>, id: &String) -> (r: bool)
    ensures
        r == views(ids@).contains(id@),
{
    let mut i: usize = 0;
    while i < ids.len()
        invariant
            0 <= i <= ids.len(),
            forall|j: int| 0 <= j < i ==> ids@[j]@ != id@,
        decreases ids.len() - i,
    {
        if ids[i] == *id {
            assert(views(ids@)[i as int] == id@);
            return true;
        }
        i = i + 1;
    }
    proof {
        if views(ids@).contains(id@) {
            let j = choose|j: int| 0 <= j < views(ids@).len() && views(ids@)[j] == id@;
            assert(ids@[j]@ == id@);
        }
    }
    false
}

/// Selects the files of a ZIP download.
pub fn select_bulk_files(file_ids: &Vec<String>, files: &Vec<FileShare>) -> (r: Result<Vec<usize>, AppError>)
    ensures
        err_view(r) == spec_select_bulk(views(file_ids@), files@),
        r matches Ok(sel) ==> ints(sel@) == bulk_selection(views(file_ids@), files@),
{
    if file_ids.len() == 0 {
        return Err(AppError::BadRequest("At least one file ID is required".to_string()));
    }
    if files.len() == 0 {
        return Err(AppError::NotFound("File not found or expired".to_string()));
    }
    let ghost ids = views(file_ids@);
    let mut sel: Vec<usize> = Vec::new();
    let mut i: usize = 0;
    while i < files.len()
        invariant
            0 <= i <= files.len(),
            ids == views(file_ids@),
            ints(sel@) == selected_upto(ids, files@, i as int),
        decreases files.len() - i,
    {
        let ghost before = sel@;
        if contains_id(file_ids, &files[i].id) {
            sel.push(i);
            assert(ints(sel@) =~= ints(before).push(i as int));
        }
        i = i + 1;
    }
    if sel.len() == 0 {
        return Err(AppError::NotFound("Requested files not found".to_string()));
    }
    Ok(sel)
}

/// Sum of the sizes of the selected files.
pub open spec fn selected_size(files: Seq<FileShare>, sel: Seq<int>) -> int
    decreases sel.len(),
{
    if sel.len() == 0 {
        0
    } else {
        selected_size(files, sel.drop_last()) + files[sel.last()].file_size
    }
}

/// The limits of one ZIP download: at most 50 files and 150 MiB.
pub open spec fn spec_bulk_limits(files: Seq<FileShare>, sel: Seq<int>) -> Option<AppErrorView> {
    if sel.len() > MAX_BULK_FILE_COUNT {
        Some(AppErrorView::BadRequest("Too many files requested. Download at most 50 files at a time."@))
    } else if selected_size(files, sel) > MAX_BULK_TOTAL_BYTES {
        Some(AppErrorView::Http(413, "Selected files are too large to download together. Please download them individually."@))
    } else {
        None
    }
}

/// Checks the limits of one ZIP download.
pub fn check_bulk_limits(files: &Vec<FileShare>, selected: &Vec<usize>) -> (r: Result<(), AppError>)
    requires
        forall|k: int| 0 <= k < selected@.len() ==> #[trigger] selected@[k] < files@.len(),
    ensures
        err_view(r) == spec_bulk_limits(files@, ints(selected@)),
{
    if selected.len() > MAX_BULK_FILE_COUNT {
        return Err(AppError::BadRequest(
            "Too many files requested. Download at most 50 files at a time.".to_string(),
        ));
    }
    let mut total: i128 = 0;
    let mut k: usize = 0;
    while k < selected.len()
        invariant
            0 <= k <= selected.len(),
            selected.len() <= 50,
            forall|j: int| 0 <= j < selected@.len() ==> #[trigger] selected@[j] < files@.len(),
            total == selected_size(files@, ints(selected@).take(k as int)),
            -0x8000_0000_0000_0000 * (k as int) <= total <= 0x7fff_ffff_ffff_ffff * (k as int),
        decreases selected.len() - k,
    {
        let ghost s = ints(selected@);
        assert(s.take(k as int + 1).drop_last() =~= s.take(k as int));
        total = total + files[selected[k]].file_size as i128;
        k = k + 1;
    }
    assert(ints(selected@).take(selected.len() as int) =~= ints(selected@));
    if total > MAX_BULK_TOTAL_BYTES as i128 {
        return Err(AppError::Http(
            413,
            "Selected files are too large to download together. Please download them individually.".to_string(),
        ));
    }
    Ok(())
}

/// Message of a protected ZIP download without a password.
pub open spec fn bulk_password_message() -> Seq<char> {
    "Password required"@
}

/// The checks of a ZIP download, in order: the selection, the password of
/// the first selected file (from the request body), then the limits.
pub open spec fn spec_bulk_download(ids: Seq<Seq<char>>, files: Seq<FileShare>, supplied: Option<Seq<char>>) -> Result<Seq<int>, AppErrorView> {
    match spec_select_bulk(ids, files) {
        Some(e) => Err(e),
        None => {
            let sel = bulk_selection(ids, files);
            match spec_check_share_password(opt_view(files[sel[0]].password_hash), supplied, bulk_password_message(), verification_failed_message()) {
                Some(e) => Err(e),
                None => match spec_bulk_limits(files, sel) {
                    Some(e) => Err(e),
                    None => Ok(sel),
                },
            }
        },
    }
}

/// Decides a ZIP download: the selected files, in the share's order.
pub fn plan_bulk_download(file_ids: &Vec<String>, files: &Vec<FileShare>, password: Option<&str>) -> (r: Result<Vec<usize>, AppError>)
    ensures
        match r {
            Ok(sel) => spec_bulk_download(views(file_ids@), files@, opt_str(password)) == Ok::<Seq<int>, AppErrorView>(ints(sel@)),
            Err(e) => spec_bulk_download(views(file_ids@), files@, opt_str(password)) == Err::<Seq<int>, AppErrorView>(e@),
        },
        r matches Ok(sel) ==> forall|k: int| 0 <= k < sel@.len() ==> #[trigger] sel@[k] < files@.len(),
{
    let sel = select_bulk_files(file_ids, files)?;
    proof {
        lemma_selected_ascending(views(file_ids@), files@, files@.len() as int);
        assert forall|k: int| 0 <= k < sel@.len() implies #[trigger] sel@[k] < files@.len() by {
            assert(ints(sel@)[k] == sel@[k] as int);
        }
        assert(ints(sel@)[0] == sel@[0] as int);
    }
    let hash: Option<&str> = match &files[sel[0]].password_hash {
        Some(h) => Some(h.as_str()),
        None => None,
    };
    check_share_password(hash, password, "Password required", "Password verification failed")?;
    check_bulk_limits(files, &sel)?;
    Ok(sel)
}

/// Message of a `/v1` download of a protected share without a password.
pub open spec fn v1_missing_password_message() -> Seq<char> {
    "Password required. Use ?password=&lt;pw&gt; or X-File-Password header"@
}

/// The password check of a `/v1` download: a missing or wrong password is
/// `403` (as the `/v1` documentation promises); an unreadable hash is an
/// internal error.
pub open spec fn spec_v1_password(hash: Option<Seq<char>>, supplied: Option<Seq<char>>) -> Option<AppErrorView> {
    match hash {
        None => None,
        Some(h) => match supplied {
            None => Some(AppErrorView::Forbidden(v1_missing_password_message())),
            Some(p) => match bcrypt_verdict(p, h) {
                Some(true) => None,
                Some(false) => Some(AppErrorView::Forbidden("Incorrect password"@)),
                None => Some(AppErrorView::Internal("Failed to verify password"@)),
            },
        },
    }
}

/// What a `/v1` download streams: one file of the share, or the whole share
/// as a ZIP archive of the given files.
#[derive(Debug)]
pub enum V1Download {
    OneFile(usize),
    WholeShare(Vec<usize>),
}

/// A `/v1` download as stated.
pub ghost enum V1DownloadView {
    OneFile(int),
    WholeShare(Seq<int>),
}

/// The view of a `/v1` download plan.
pub open spec fn v1_download_view(d: V1Download) -> V1DownloadView {
    match d {
        V1Download::OneFile(i) => V1DownloadView::OneFile(i as int),
        V1Download::WholeShare(sel) => V1DownloadView::WholeShare(ints(sel@)),
    }
}


/// One named file of a `/v1` download: not a P2P file, then its password.
pub open spec fn spec_v1_one_file(files: Seq<FileShare>, i: int, supplied: Option<Seq<char>>) -> Result<V1DownloadView, AppErrorView> {
    if is_p2p(files[i]) {
        Err(AppErrorView::BadRequest(cli_p2p_message()))
    } else {
        match spec_v1_password(opt_view(files[i].password_hash), supplied) {
            Some(e) => Err(e),
            None => Ok(V1DownloadView::OneFile(i)),
        }
    }
}

/// A `/v1` download (`GET /v1/shares/{code}/download`): with a file id, that
/// file of the share; without one, the whole share: its only file as it is,
/// or, for several files, every file in one ZIP archive, in the share's
/// order and with no limit on their number or size. The password comes from
/// the `password` query parameter or else the `X-File-Password` header.
pub open spec fn spec_v1_download(files: Seq<FileShare>, file_id: Option<Seq<char>>, query_password: Option<Seq<char>>, header_password: Option<Seq<char>>) -> Result<V1DownloadView, AppErrorView> {
    let supplied = if query_password is Some { query_password } else { header_password };
    if files.len() == 0 {
        Err(AppErrorView::NotFound("File not found or expired"@))
    } else {
        match file_id {
            Some(id) => match find_from(files, id, 0) {
                None => Err(AppErrorView::NotFound("File not found"@)),
                Some(i) => spec_v1_one_file(files, i, supplied),
            },
            None => if files.len() == 1 {
                spec_v1_one_file(files, 0, supplied)
            } else if is_p2p(files[0]) {
                Err(AppErrorView::BadRequest(cli_p2p_message()))
            } else {
                match spec_v1_password(opt_view(files[0].password_hash), supplied) {
                    Some(e) => Err(e),
                    None => Ok(V1DownloadView::WholeShare(Seq::new(files.len(), |i: int| i))),
                }
            },
        }
    }
}

/// Checks the password of a `/v1` download: the share password check, with
/// its `401` answers given as `403`.
fn v1_password(hash: Option<&str>, supplied: Option<&str>) -> (r: Result<(), AppError>)
    ensures
        err_view(r) == spec_v1_password(opt_str(hash), opt_str(supplied)),
{
    match check_share_password(hash, supplied, "Password required. Use ?password=&lt;pw&gt; or X-File-Password header", "Failed to verify password") {
        Ok(()) => Ok(()),
        Err(AppError::Unauthorized(m)) => Err(AppError::Forbidden(m)),
        Err(e) => Err(e),
    }
}

/// One named file of a `/v1` download.
fn v1_one_file(files: &Vec<FileShare>, i: usize, supplied: Option<&str>) -> (r: Result<V1Download, AppError>)
    requires
        i < files@.len(),
    ensures
        match r {
            Ok(d) => spec_v1_one_file(files@, i as int, opt_str(supplied)) == Ok::<V1DownloadView, AppErrorView>(v1_download_view(d)),
            Err(e) => spec_v1_one_file(files@, i as int, opt_str(supplied)) == Err::<V1DownloadView, AppErrorView>(e@),
        },
{
    if is_p2p_text(&files[i].transfer_type) {
        return Err(AppError::BadRequest("P2P files cannot be downloaded via CLI".to_string()));
    }
    let hash: Option<&str> = match &files[i].password_hash {
        Some(h) => Some(h.as_str()),
        None => None,
    };
    v1_password(hash, supplied)?;
    Ok(V1Download::OneFile(i))
}


/// Plans a `/v1` download.
pub fn v1_download_plan(files: &Vec<FileShare>, file_id: Option<&str>, query_password: Option<&str>, header_password: Option<&str>) -> (r: Result<V1Download, AppError>)
    ensures
        match r {
            Ok(d) => spec_v1_download(files@, opt_str(file_id), opt_str(query_password), opt_str(header_password))
                == Ok::<V1DownloadView, AppErrorView>(v1_download_view(d)),
            Err(e) => spec_v1_download(files@, opt_str(file_id), opt_str(query_password), opt_str(header_password))
                == Err::<V1DownloadView, AppErrorView>(e@),
        },
        r matches Ok(V1Download::OneFile(i)) ==> i < files@.len(),
        r matches Ok(V1Download::WholeShare(sel)) ==> ints(sel@) == Seq::new(files@.len(), |i: int| i),
{
    let supplied = if query_password.is_some() { query_password } else { header_password };
    if files.len() == 0 {
        return Err(AppError::NotFound("File not found or expired".to_string()));
    }
    match file_id {
        Some(id) => match find_file_by_id(files, id) {
            None => Err(AppError::NotFound("File not found".to_string())),
            Some(i) => v1_one_file(files, i, supplied),
        },
        None => {
            if files.len() == 1 {
                return v1_one_file(files, 0, supplied);
            }
            if is_p2p_text(&files[0].transfer_type) {
                return Err(AppError::BadRequest("P2P files cannot be downloaded via CLI".to_string()));
            }
            let hash: Option<&str> = match &files[0].password_hash {
                Some(h) => Some(h.as_str()),
                None => None,
            };
            v1_password(hash, supplied)?;
            let mut sel: Vec<usize> = Vec::new();
            let mut k: usize = 0;
            while k < files.len()
                invariant
                    0 <= k <= files.len(),
                    sel@.len() == k,
                    forall|j: int| 0 <= j < k ==> sel@[j] == j,
                decreases files.len() - k,
            {
                sel.push(k);
                k = k + 1;
            }
            proof {
                assert(ints(sel@) =~= Seq::new(files@.len(), |i: int| i));
            }
            Ok(V1Download::WholeShare(sel))
        },
    }
}

/// A `/v1` download as answered: when the code names no live file but rows
/// of it have expired (`expired_rows`), `410 Gone`; otherwise the plan of
/// `v1_download_plan`.
pub fn v1_download(files: &Vec<FileShare>, expired_rows: bool, file_id: Option<&str>, query_password: Option<&str>, header_password: Option<&str>) -> (r: Result<V1Download, AppError>)
    ensures
        files@.len() == 0 && expired_rows ==> (r matches Err(e) && e@ == AppErrorView::Gone("Share has expired"@)),
        !(files@.len() == 0 && expired_rows) ==> match r {
            Ok(d) => spec_v1_download(files@, opt_str(file_id), opt_str(query_password), opt_str(header_password))
                == Ok::<V1DownloadView, AppErrorView>(v1_download_view(d)),
            Err(e) => spec_v1_download(files@, opt_str(file_id), opt_str(query_password), opt_str(header_password))
                == Err::<V1DownloadView, AppErrorView>(e@),
        },
{
    if files.len() == 0 && expired_rows {
        return Err(AppError::Gone("Share has expired".to_string()));
    }
    v1_download_plan(files, file_id, query_password, header_password)
}

/// The names of a prefix of a list, as a set.
pub open spec fn prefix_names(names: Seq<String>, n: int) -> Set<Seq<char>> {
    views(names).take(n).to_set()
}

/// The entry names of a ZIP download: each file's name made safe and
/// unique against the entries before it.
pub open spec fn entry_names_ok(files: Seq<FileShare>, sel: Seq<int>, names: Seq<String>) -> bool {
    &&& names.len() == sel.len()
    &&& forall|k: int| 0 <= k < names.len() ==> (#[trigger] names[k])@
        == spec_entry_name(files[sel[k]].file_name@, files[sel[k]].id@, prefix_names(names, k))
}

/// The ZIP entry names of the selected files.
pub fn zip_entry_names(files: &Vec<FileShare>, selected: &Vec<usize>) -> (r: Vec<String>)
    requires
        forall|k: int| 0 <= k < selected@.len() ==> #[trigger] selected@[k] < files@.len(),
    ensures
        entry_names_ok(files@, ints(selected@), r@),
{
    let mut used = UsedNames::new();
    let mut names: Vec<String> = Vec::new();
    let mut k: usize = 0;
    while k < selected.len()
        invariant
            0 <= k <= selected.len(),
            names@.len() == k,
            forall|j: int| 0 <= j < selected@.len() ==> #[trigger] selected@[j] < files@.len(),
            used.wf(),
            used@ == prefix_names(names@, k as int),
            forall|j: int| 0 <= j < k ==> (#[trigger] names@[j])@
                == spec_entry_name(files@[selected@[j] as int].file_name@, files@[selected@[j] as int].id@, prefix_names(names@, j)),
        decreases selected.len() - k,
    {
        let f = &files[selected[k]];
        let ghost before = names@;
        let name = sanitize_zip_entry_name(f.file_name.as_str(), f.id.as_str(), &mut used);
        names.push(name);
        proof {
            assert(views(names@).take(k as int + 1) =~= views(before).take(k as int).push(names@[k as int]@));
            views(before).take(k as int).lemma_push_to_set_commute(names@[k as int]@);
            assert forall|j: int| 0 <= j <= k implies prefix_names(names@, j) == prefix_names(before, j) by {
                assert(views(names@).take(j) =~= views(before).take(j));
            }
            assert forall|j: int| 0 <= j < k + 1 implies (#[trigger] names@[j])@
                == spec_entry_name(files@[selected@[j] as int].file_name@, files@[selected@[j] as int].id@, prefix_names(names@, j)) by {
                if j < k {
                    assert(names@[j] == before[j]);
                }
            }
        }
        k = k + 1;
    }
    assert(ints(selected@).len() == selected@.len());
    names
}

/// `Content-Disposition` of a ZIP download of share `code`.
pub open spec fn bulk_disposition(code: Seq<char>) -> Seq<char> {
    "attachment; filename=\"share-"@ + code + ".zip\""@
}

/// The `Content-Disposition` header of a ZIP download.
pub fn bulk_content_disposition(code: &str) -> (r: String)
    ensures
        r@ == bulk_disposition(code@),
{
    let mut s = "attachment; filename=\"share-".to_string();
    push_str(&mut s, code);
    push_str(&mut s, ".zip\"");
    s
}

/// Summary of a share for its file list.
pub struct ShareSummary {
    pub total_count: usize,
    pub has_password: bool,
    pub is_one_time: bool,
    pub transfer_type: String,
    /// For a P2P share: whether its uploader is connected.
    pub uploader_online: Option<bool>,
}

/// Whether some file of the share has a password.
pub open spec fn any_password(files: Seq<FileShare>) -> bool {
    exists|i: int| 0 <= i < files.len() && (#[trigger] files[i]).password_hash is Some
}

/// Summarizes a share from its files (the first file speaks for the
/// share); `uploader_found` is whether signaling knows its uploader.
pub fn share_summary(files: &Vec<FileShare>, uploader_found: bool) -> (r: Result<ShareSummary, AppError>)
    ensures
        files@.len() == 0 <==> err_view(r) == Some(AppErrorView::NotFound("File not found or expired"@)),
        r matches Ok(s) ==> {
            &&& s.total_count == files@.len()
            &&& s.has_password == any_password(files@)
            &&& s.is_one_time == files@[0].is_one_time
            &&& s.transfer_type@ == files@[0].transfer_type@
            &&& s.uploader_online == (if is_p2p(files@[0]) { Some(uploader_found) } else { None::<bool> })
        },
{
    if files.len() == 0 {
        return Err(AppError::NotFound("File not found or expired".to_string()));
    }
    let mut has_password = false;
    let mut i: usize = 0;
    while i < files.len()
        invariant
            0 <= i <= files.len(),
            has_password == exists|j: int| 0 <= j < i && (#[trigger] files@[j]).password_hash is Some,
        decreases files.len() - i,
    {
        if files[i].password_hash.is_some() {
            has_password = true;
        }
        i = i + 1;
    }
    let first = &files[0];
    let uploader_online = if is_p2p_text(&first.transfer_type) { Some(uploader_found) } else { None };
    Ok(ShareSummary {
        total_count: files.len(),
        has_password,
        is_one_time: first.is_one_time,
        transfer_type: first.transfer_type.clone(),
        uploader_online,
    })
}

/// The first file of the share with a password.
pub open spec fn first_protected(files: Seq<FileShare>, j: int) -> Option<int>
    decreases files.len() - j,
{
    if j < 0 || j >= files.len() {
        None
    } else if files[j].password_hash is Some {
        Some(j)
    } else {
        first_protected(files, j + 1)
    }
}

/// The answer of a password check on a whole share: a share without a
/// password accepts anything; otherwise the first stored hash decides.
pub open spec fn spec_verify_share_password(files: Seq<FileShare>, supplied: Seq<char>) -> Option<AppErrorView> {
    if files.len() == 0 {
        Some(AppErrorView::NotFound("File not found or expired"@))
    } else {
        match first_protected(files, 0) {
            None => None,
            Some(i) => spec_password_verdict(bcrypt_verdict(supplied, files[i].password_hash->0@), verification_failed_message()),
        }
    }
}

/// Checks a password typed on the download page against the share.
pub fn verify_share_password(files: &Vec<FileShare>, supplied: &str) -> (r: Result<(), AppError>)
    ensures
        err_view(r) == spec_verify_share_password(files@, supplied@),
{
    if files.len() == 0 {
        return Err(AppError::NotFound("File not found or expired".to_string()));
    }
    let mut i: usize = 0;
    while i < files.len()
        invariant
            0 <= i <= files.len(),
            files@.len() > 0,
            first_protected(files@, 0) == first_protected(files@, i as int),
        decreases files.len() - i,
    {
        match &files[i].password_hash {
            Some(h) => {
                return check_share_password(Some(h.as_str()), Some(supplied), "", "Password verification failed");
            },
            None => {},
        }
        i = i + 1;
    }
    Ok(())
}

/// Who may revoke a share: its owner (same user id) or the device it was
/// uploaded from (same device id).
pub open spec fn spec_may_revoke(owner_user: Option<Seq<char>>, owner_device: Option<Seq<char>>, user_id: Option<Seq<char>>, device_id: Option<Seq<char>>) -> bool {
    (user_id is Some && owner_user == user_id) || (device_id is Some && owner_device == device_id)
}

/// Whether two optional texts are equal.
fn same_opt(a: &Option<String>, b: Option<&str>) -> (r: bool)
    ensures
        r == (opt_view(*a) == opt_str(b)),
{
    match (a, b) {
        (Some(x), Some(y)) => {
            let t = y.to_string();
            *x == t
        },
        (None, None) => true,
        _ => false,
    }
}

/// Decides a revocation: `404` for an unknown share, `403` unless the
/// caller owns it or uploaded it from this device. The first row speaks for
/// the share.
pub fn authorize_revoke(shares: &Vec<FileShare>, user_id: Option<&str>, device_id: Option<&str>) -> (r: Result<(), AppError>)
    ensures
        shares@.len() == 0 ==> err_view(r) == Some(AppErrorView::NotFound("Share not found"@)),
        shares@.len() > 0 ==> (r is Ok <==> spec_may_revoke(opt_view(shares@[0].user_id), opt_view(shares@[0].device_id), opt_str(user_id), opt_str(device_id))),
        shares@.len() > 0 && r is Err ==> err_view(r) == Some(AppErrorView::Forbidden("Not allowed to revoke this share"@)),
{
    if shares.len() == 0 {
        return Err(AppError::NotFound("Share not found".to_string()));
    }
    let owner = &shares[0];
    let by_user = user_id.is_some() && same_opt(&owner.user_id, user_id);
    let by_device = device_id.is_some() && same_opt(&owner.device_id, device_id);
    if by_user || by_device {
        Ok(())
    } else {
        Err(AppError::Forbidden("Not allowed to revoke this share".to_string()))
    }
}

/// The message of a CLI history request without a personal token.
pub open spec fn token_required_message() -> Seq<char> {
    "Personal token required. Set the 'X-Personal-Token' header."@
}

/// Every file of a share belongs to `user`.
pub open spec fn all_owned_by(files: Seq<FileShare>, user: Seq<char>) -> bool {
    forall|i: int| 0 <= i < files.len() ==> opt_view((#[trigger] files[i]).user_id) == Some(user)
}

/// The checks before a token holder deletes a share or reads its download
/// logs: a personal token, an existing share, and every file of it the
/// holder's own.
pub open spec fn spec_share_owner_check(user: Option<Seq<char>>, files: Seq<FileShare>) -> Option<AppErrorView> {
    match user {
        None => Some(AppErrorView::Unauthorized(token_required_message())),
        Some(u) => if files.len() == 0 {
            Some(AppErrorView::NotFound("Share code not found"@))
        } else if !all_owned_by(files, u) {
            Some(AppErrorView::Forbidden("You do not have permission to access this share"@))
        } else {
            None
        },
    }
}

/// Checks that the token holder owns the whole share.
pub fn check_share_owner(user: Option<&str>, files: &Vec<FileShare>) -> (r: Result<(), AppError>)
    ensures
        err_view(r) == spec_share_owner_check(opt_str(user), files@),
{
    let u = match user {
        None => { return Err(AppError::Unauthorized("Personal token required. Set the 'X-Personal-Token' header.".to_string())); },
        Some(u) => u,
    };
    if files.len() == 0 {
        return Err(AppError::NotFound("Share code not found".to_string()));
    }
    let mut i: usize = 0;
    while i < files.len()
        invariant
            0 <= i <= files.len(),
            forall|j: int| 0 <= j < i ==> opt_view((#[trigger] files@[j]).user_id) == Some(u@),
            opt_str(user) == Some(u@),
            files@.len() > 0,
        decreases files.len() - i,
    {
        let same = same_opt(&files[i].user_id, Some(u));
        proof {
            assert(opt_str(Some(u)) == Some(u@));
        }
        if !same {
            proof {
                assert(opt_view(files@[i as int].user_id) != Some(u@));
                assert(!all_owned_by(files@, u@));
                assert(opt_str(user) == Some(u@));
            }
            return Err(AppError::Forbidden("You do not have permission to access this share".to_string()));
        }
        i = i + 1;
    }
    Ok(())
}

/// Page of a CLI history: 20 entries unless asked, at most 100, from the
/// start unless asked.
pub fn cli_history_page(limit: Option<i64>, offset: Option<i64>) -> (r: (i64, i64))
    ensures
        r.0 == (match limit { Some(l) => if l < 100 { l } else { 100 }, None => 20 }),
        r.1 == (match offset { Some(o) => o, None => 0 }),
{
    let l = match limit {
        Some(l) => if l < 100 { l } else { 100 },
        None => 20,
    };
    let o = match offset {
        Some(o) => o,
        None => 0,
    };
    (l, o)
}

} // verus!
