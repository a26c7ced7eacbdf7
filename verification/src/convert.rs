//! Document conversion through CloudConvert: which key is used, and what is
//! read back from the service's job descriptions. The HTTP calls are made by
//! the caller, which hands over the tasks of a job as plain values.
use vstd::prelude::*;
use std::sync::Arc;
use crate::config::Config;
use crate::download::opt_view;
use crate::text::{eq_str, to_chars};

verus! {

/// What the document conversion handlers need.
pub struct ConvertState {
    pub config: Arc<Config>,
}

/// One task of a conversion job, as the service describes it.
#[derive(Debug, Clone)]
pub struct ConvertTask {
    /// `name`, when it is a string.
    pub name: Option<String>,
    /// `result.form.url`, when it is a string.
    pub form_url: Option<String>,
    /// Whether `result.form.parameters` is an object.
    pub has_form_parameters: bool,
    /// `result.files[0].url`, when there is a first file and its URL is a
    /// string.
    pub first_file_url: Option<String>,
}

/// The API key, when one is configured and not empty.
pub open spec fn spec_convert_key(configured: Option<Seq<char>>) -> Option<Seq<char>> {
    match configured {
        Some(k) => if k.len() > 0 { Some(k) } else { None },
        None => None,
    }
}

/// The API key to call the service with; without one the handlers answer
/// `503`.
pub fn convert_key(configured: &Option<String>) -> (r: Option<String>)
    ensures
        opt_view(r) == spec_convert_key(opt_view(*configured)),
{
    match configured {
        Some(k) => {
            if k.as_str().is_empty() {
                None
            } else {
                Some(k.clone())
            }
        },
        None => None,
    }
}

/// Index of the first task named `name`, from `i` on.
pub open spec fn first_named(tasks: Seq<ConvertTask>, name: Seq<char>, i: int) -> Option<int>
    decreases tasks.len() - i,
{
    if i < 0 || i >= tasks.len() {
        None
    } else if opt_view(tasks[i].name) == Some(name) {
        Some(i)
    } else {
        first_named(tasks, name, i + 1)
    }
}

/// Finds the first task named `name`.
fn find_task(tasks: &Vec<ConvertTask>, name: &str) -> (r: Option<usize>)
    ensures
        match r {
            Some(i) => first_named(tasks@, name@, 0) == Some(i as int) && i < tasks@.len(),
            None => first_named(tasks@, name@, 0) is None,
        },
{
    let mut i: usize = 0;
    while i < tasks.len()
        invariant
            0 <= i <= tasks.len(),
            first_named(tasks@, name@, 0) == first_named(tasks@, name@, i as int),
        decreases tasks.len() - i,
    {
        let named = match &tasks[i].name {
            Some(n) => eq_str(&to_chars(n.as_str()), name),
            None => false,
        };
        if named {
            return Some(i);
        }
        i = i + 1;
    }
    None
}

/// Where the file to convert is sent: the job's id (empty when it has
/// none), the index of its `upload` task, whose form parameters go with it,
/// and the form's URL.
#[derive(Debug)]
pub struct UploadForm {
    pub job_id: String,
    pub task: usize,
    pub url: String,
}

/// What a new job answers: the form of its first `upload` task, when that
/// task has both a URL and parameters; `None` is answered `502` ("Upload
/// URL not found"). `tasks` is `None` when the job lists no tasks.
pub open spec fn spec_upload_form(job_id: Option<Seq<char>>, tasks: Option<Seq<ConvertTask>>) -> Option<(Seq<char>, int, Seq<char>)> {
    match tasks {
        None => None,
        Some(ts) => match first_named(ts, "upload"@, 0) {
            None => None,
            Some(i) => if ts[i].form_url is Some && ts[i].has_form_parameters {
                Some((match job_id { Some(j) => j, None => Seq::empty() }, i, opt_view(ts[i].form_url)->0))
            } else {
                None
            },
        },
    }
}

/// The upload form of a newly created job.
pub fn upload_form(job_id: Option<&str>, tasks: &Option<Vec<ConvertTask>>) -> (r: Option<UploadForm>)
    ensures
        match r {
            Some(f) => spec_upload_form(match job_id { Some(j) => Some(j@), None => None },
                match tasks { Some(ts) => Some(ts@), None => None }) == Some((f.job_id@, f.task as int, f.url@)),
            None => spec_upload_form(match job_id { Some(j) => Some(j@), None => None },
                match tasks { Some(ts) => Some(ts@), None => None }) is None,
        },
{
    let ts = match tasks {
        Some(ts) => ts,
        None => return None,
    };
    let i = match find_task(ts, "upload") {
        Some(i) => i,
        None => return None,
    };
    let url = match &ts[i].form_url {
        Some(u) => u.clone(),
        None => return None,
    };
    if !ts[i].has_form_parameters {
        return None;
    }
    let id = match job_id {
        Some(j) => j.to_string(),
        None => String::new(),
    };
    Some(UploadForm { job_id: id, task: i, url })
}

/// A job's status as reported, and the converted PDF's URL once it is
/// finished: the first file of its first `export` task, or empty.
pub open spec fn spec_convert_status(status: Option<Seq<char>>, tasks: Option<Seq<ConvertTask>>) -> (Seq<char>, Option<Seq<char>>) {
    let s = match status { Some(s) => s, None => "unknown"@ };
    if s == "finished"@ {
        let url = match tasks {
            None => Seq::empty(),
            Some(ts) => match first_named(ts, "export"@, 0) {
                None => Seq::empty(),
                Some(i) => match opt_view(ts[i].first_file_url) {
                    Some(u) => u,
                    None => Seq::empty(),
                },
            },
        };
        (s, Some(url))
    } else {
        (s, None)
    }
}

/// The status answer of a job: its status and, when it is finished, the
/// URL of the converted PDF.
pub fn convert_status(status: Option<&str>, tasks: &Option<Vec<ConvertTask>>) -> (r: (String, Option<String>))
    ensures
        (r.0@, opt_view(r.1)) == spec_convert_status(match status { Some(s) => Some(s@), None => None },
            match tasks { Some(ts) => Some(ts@), None => None }),
{
    let s = match status {
        Some(s) => s.to_string(),
        None => "unknown".to_string(),
    };
    if !eq_str(&to_chars(s.as_str()), "finished") {
        return (s, None);
    }
    let url = match tasks {
        None => String::new(),
        Some(ts) => match find_task(ts, "export") {
            None => String::new(),
            Some(i) => match &ts[i].first_file_url {
                Some(u) => u.clone(),
                None => String::new(),
            },
        },
    };
    (s, Some(url))
}

} // verus!
