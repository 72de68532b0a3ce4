//! The portal's REST contract: one endpoint, a request body per mode, the
//! form fields of a presigned upload, and the plan of a batch of downloads.

use vstd::prelude::*;
use crate::paths::{get_file_name_from_path, parse_url, path_file_name, url_display_name, PathError};
use crate::transfer::{join_path, joined, upload_started, Progress};

verus! {

/// The body of a non-success answer of the portal.
#[derive(Debug, PartialEq, Eq)]
pub struct ErrorResponse {
    pub error: i32,
    pub message: String,
}

/// The character of a decimal digit.
pub open spec fn digit_char(d: nat) -> char {
    if d == 0 { '0' } else if d == 1 { '1' } else if d == 2 { '2' } else if d == 3 { '3' }
    else if d == 4 { '4' } else if d == 5 { '5' } else if d == 6 { '6' } else if d == 7 { '7' }
    else if d == 8 { '8' } else { '9' }
}

/// The decimal digits of a natural number, without leading zeros.
pub open spec fn decimal(n: nat) -> Seq<char>
    decreases n,
{
    if n < 10 {
        seq![digit_char(n)]
    } else {
        decimal(n / 10) + seq![digit_char(n % 10)]
    }
}

/// The decimal text of an integer, with a leading `-` where it is negative.
pub open spec fn signed_decimal(i: int) -> Seq<char> {
    if i < 0 {
        seq!['-'] + decimal((-i) as nat)
    } else {
        decimal(i as nat)
    }
}

fn digit_str(d: u32) -> (r: &'static str)
    requires
        d < 10,
    ensures
        r@ == seq![digit_char(d as nat)],
{
    proof {
        reveal_strlit("0");
        reveal_strlit("1");
        reveal_strlit("2");
        reveal_strlit("3");
        reveal_strlit("4");
        reveal_strlit("5");
        reveal_strlit("6");
        reveal_strlit("7");
        reveal_strlit("8");
        reveal_strlit("9");
    }
    let r = if d == 0 { "0" } else if d == 1 { "1" } else if d == 2 { "2" } else if d == 3 { "3" }
    else if d == 4 { "4" } else if d == 5 { "5" } else if d == 6 { "6" } else if d == 7 { "7" }
    else if d == 8 { "8" } else { "9" };
    assert(r@ =~= seq![digit_char(d as nat)]);
    r
}

fn append_decimal(s: &mut String, n: u32)
    ensures
        final(s)@ == old(s)@ + decimal(n as nat),
    decreases n,
{
    if n >= 10 {
        append_decimal(s, n / 10);
    }
    s.append(digit_str(n % 10));
    assert(final(s)@ =~= old(s)@ + decimal(n as nat));
}

impl ErrorResponse {
    /// The line that reports the error: both fields as the portal sent them.
    pub fn message(&self) -> (r: String)
        ensures
            r@ == "API error "@ + signed_decimal(self.error as int) + ": "@ + self.message@,
    {
        let mut line = "API error ".to_owned();
        if self.error < 0 {
            line.append("-");
            proof {
                reveal_strlit("-");
                assert("-"@ =~= seq!['-']);
            }
            append_decimal(&mut line, (-(self.error as i64)) as u32);
        } else {
            append_decimal(&mut line, self.error as u32);
        }
        line.append(": ");
        line.append(self.message.as_str());
        line
    }
}

/// A project as the portal lists it.
#[derive(Debug, PartialEq, Eq)]
pub struct Project {
    pub name: String,
    pub description: String,
}

/// The form fields of a presigned upload.
#[derive(Debug, PartialEq, Eq)]
pub struct Fields {
    pub key: String,
    pub policy: String,
    pub algorithm: String,
    pub signature: String,
    pub credential: String,
    pub date: String,
    pub token: String,
}

/// Where and how one file may be uploaded.
#[derive(Debug, PartialEq, Eq)]
pub struct UploadURL {
    pub url: String,
    pub fields: Fields,
}

/// A request to the portal, by mode.
#[derive(Debug, PartialEq, Eq)]
pub enum CliRequest {
    Projects,
    Files { project: Option<String> },
    Download { project: Option<String>, files: Vec<String> },
    Upload { project: Option<String>, files: Vec<String>, sizes: Vec<u64> },
}

/// One file to move: where it comes from, where it goes, and the name shown.
#[derive(Debug, PartialEq, Eq)]
pub struct TransferDescriptor {
    pub source: String,
    pub target: String,
    pub display_name: String,
}

pub open spec fn views(v: Seq<String>) -> Seq<Seq<char>> {
    v.map_values(|s: String| s@)
}

pub open spec fn option_view(o: Option<String>) -> Option<Seq<char>> {
    match o {
        Some(s) => Some(s@),
        None => None,
    }
}

/// The portal's endpoint under the API base URL.
pub fn endpoint_url(api: &str) -> (r: String)
    ensures
        r@ == api@ + "/dportal/cli"@,
{
    let mut url = api.to_owned();
    url.append("/dportal/cli");
    url
}

/// The value of the `Authorization` header for an identity token.
pub fn bearer(token: &str) -> (r: String)
    ensures
        r@ == "Bearer "@ + token@,
{
    let mut value = "Bearer ".to_owned();
    value.append(token);
    value
}

fn copy_project(project: &Option<String>) -> (r: Option<String>)
    ensures
        option_view(r) == option_view(*project),
{
    match project {
        Some(p) => Some(p.clone()),
        None => None,
    }
}

fn copy_strings(v: &Vec<String>) -> (r: Vec<String>)
    ensures
        views(r@) == views(v@),
{
    let mut out: Vec<String> = Vec::new();
    let mut i: usize = 0;
    while i < v.len()
        invariant
            i <= v@.len(),
            out@.len() == i,
            forall|j: int| 0 <= j < i ==> out@[j]@ == v@[j]@,
        decreases v@.len() - i,
    {
        out.push(v[i].clone());
        i = i + 1;
    }
    assert(views(out@) =~= views(v@));
    out
}

/// The request for the files of a project, or of the user's space.
pub fn files_request(project: &Option<String>) -> (r: CliRequest)
    ensures
        r is Files && option_view(r->Files_project) == option_view(*project),
{
    CliRequest::Files { project: copy_project(project) }
}

/// The request for presigned download URLs of the named files.
pub fn download_request(project: &Option<String>, files: &Vec<String>) -> (r: CliRequest)
    ensures
        r is Download && option_view(r->Download_project) == option_view(*project) && views(
            r->Download_files@,
        ) == views(files@),
{
    CliRequest::Download { project: copy_project(project), files: copy_strings(files) }
}

/// Every path has a file name.
pub open spec fn all_named(paths: Seq<String>) -> bool {
    forall|i: int| 0 <= i < paths.len() ==> path_file_name(#[trigger] paths[i]@) is Some
}

/// The names under which local files are uploaded: the file name of each
/// path, in order; an error where a path has none.
pub fn upload_names(paths: &Vec<String>) -> (r: Result<Vec<String>, PathError>)
    ensures
        r is Ok <==> all_named(paths@),
        r is Ok ==> r->Ok_0@.len() == paths@.len() && forall|i: int|
            0 <= i < paths@.len() ==> r->Ok_0@[i]@ == path_file_name(#[trigger] paths@[i]@)->0,
        r is Err ==> r == Err::<Vec<String>, PathError>(PathError::InvalidPath),
{
    let mut names: Vec<String> = Vec::new();
    let mut i: usize = 0;
    while i < paths.len()
        invariant
            i <= paths@.len(),
            names@.len() == i,
            forall|j: int| 0 <= j < i ==> path_file_name(#[trigger] paths@[j]@) is Some,
            forall|j: int| 0 <= j < i ==> names@[j]@ == path_file_name(#[trigger] paths@[j]@)->0,
        decreases paths@.len() - i,
    {
        match get_file_name_from_path(paths[i].as_str()) {
            Ok(name) => names.push(name),
            Err(e) => return Err(e),
        }
        i = i + 1;
    }
    Ok(names)
}

/// What an upload request holds: the file name of each path and, for each,
/// the size given for it.
pub open spec fn upload_request_post(
    project: Option<String>,
    paths: Seq<String>,
    sizes: Seq<u64>,
    r: Result<CliRequest, PathError>,
) -> bool {
    &&& (r is Ok <==> all_named(paths))
    &&& r is Ok ==> {
        let req = r->Ok_0;
        &&& req is Upload
        &&& option_view(req->Upload_project) == option_view(project)
        &&& req->Upload_files@.len() == paths.len()
        &&& forall|i: int|
            0 <= i < paths.len() ==> req->Upload_files@[i]@ == path_file_name(#[trigger] paths[i]@)->0
        &&& req->Upload_sizes@ == sizes
    }
    &&& r is Err ==> r == Err::<CliRequest, PathError>(PathError::InvalidPath)
}

/// The request for presigned upload forms: the file names of the paths and
/// the size of each file, as its metadata gave it.
pub fn upload_request(project: &Option<String>, paths: &Vec<String>, sizes: Vec<u64>) -> (r: Result<
    CliRequest,
    PathError,
>)
    requires
        sizes@.len() == paths@.len(),
    ensures
        upload_request_post(*project, paths@, sizes@, r),
{
    match upload_names(paths) {
        Ok(files) => Ok(CliRequest::Upload { project: copy_project(project), files, sizes }),
        Err(e) => Err(e),
    }
}

/// The text fields of a presigned upload's form, in the order they are sent.
pub fn form_fields(f: &Fields) -> (r: Vec<(String, String)>)
    ensures
        r@.len() == 7,
        r@[0].0@ == "key"@ && r@[0].1@ == f.key@,
        r@[1].0@ == "policy"@ && r@[1].1@ == f.policy@,
        r@[2].0@ == "x-amz-signature"@ && r@[2].1@ == f.signature@,
        r@[3].0@ == "x-amz-algorithm"@ && r@[3].1@ == f.algorithm@,
        r@[4].0@ == "x-amz-credential"@ && r@[4].1@ == f.credential@,
        r@[5].0@ == "x-amz-date"@ && r@[5].1@ == f.date@,
        r@[6].0@ == "x-amz-security-token"@ && r@[6].1@ == f.token@,
{
    let mut r: Vec<(String, String)> = Vec::new();
    r.push(("key".to_owned(), f.key.clone()));
    r.push(("policy".to_owned(), f.policy.clone()));
    r.push(("x-amz-signature".to_owned(), f.signature.clone()));
    r.push(("x-amz-algorithm".to_owned(), f.algorithm.clone()));
    r.push(("x-amz-credential".to_owned(), f.credential.clone()));
    r.push(("x-amz-date".to_owned(), f.date.clone()));
    r.push(("x-amz-security-token".to_owned(), f.token.clone()));
    r
}

/// The downloads of a batch: each URL as it came, the file's display name,
/// and its place in the destination directory.
pub fn download_plan(urls: &Vec<String>, destination: &str) -> (r: Vec<TransferDescriptor>)
    ensures
        r@.len() == urls@.len(),
        forall|i: int|
            0 <= i < urls@.len() ==> {
                &&& (#[trigger] r@[i]).source@ == urls@[i]@
                &&& r@[i].display_name@ == url_display_name(urls@[i]@)
                &&& r@[i].target@ == joined(destination@, url_display_name(urls@[i]@))
            },
{
    let mut plan: Vec<TransferDescriptor> = Vec::new();
    let mut i: usize = 0;
    while i < urls.len()
        invariant
            i <= urls@.len(),
            plan@.len() == i,
            forall|j: int|
                0 <= j < i ==> {
                    &&& (#[trigger] plan@[j]).source@ == urls@[j]@
                    &&& plan@[j].display_name@ == url_display_name(urls@[j]@)
                    &&& plan@[j].target@ == joined(destination@, url_display_name(urls@[j]@))
                },
        decreases urls@.len() - i,
    {
        let url = &urls[i];
        match parse_url(url.as_str()) {
            Ok((_, name)) => {
                let target = join_path(destination, name.as_str());
                plan.push(TransferDescriptor { source: url.clone(), target, display_name: name });
            },
            Err(_) => {},
        }
        i = i + 1;
    }
    plan
}

/// For a file of length `len`, the upload request states `len` as its size
/// and the progress of its upload starts with `len` as its total.
pub proof fn lemma_upload_size_reported(
    project: Option<String>,
    paths: Seq<String>,
    sizes: Seq<u64>,
    r: Result<CliRequest, PathError>,
    i: int,
    len: u64,
    p: Progress,
)
    requires
        sizes.len() == paths.len(),
        0 <= i < paths.len(),
        sizes[i] == len,
        upload_request_post(project, paths, sizes, r),
        r is Ok,
        upload_started(p, path_file_name(paths[i]@)->0, len),
    ensures
        r->Ok_0->Upload_sizes@[i] == len,
        r->Ok_0->Upload_files@[i]@ == p.name@,
        p.total == len,
{
}

} // verus!
