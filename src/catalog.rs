//! The version catalog: rules for accepting an uploaded release and naming its
//! artifact in the store.
use vstd::prelude::*;
use crate::checksum::{checksum_of, compute_checksum};
use crate::models::{opt_view, ApiError, Version};
use crate::text::{copy_text, join2, push_char};

verus! {

/// Whether a text is a semantic version `MAJOR.MINOR.PATCH[-pre][+build]`.
pub uninterp spec fn semver_valid(s: Seq<char>) -> bool;

/// Relies on semver's `Version::parse`: whether the text parses as
/// `MAJOR.MINOR.PATCH[-pre][+build]`; the answer depends on the text alone.
#[verifier::external_body]
fn parses_as_semver(s: &str) -> (r: bool)
    ensures
        r == semver_valid(s@),
{
    semver::Version::parse(s).is_ok()
}

/// Whether a version string is acceptable to the catalog.
pub fn is_valid_semver(s: &str) -> (r: bool)
    ensures
        r == semver_valid(s@),
{
    parses_as_semver(s)
}

/// The index of the last occurrence of `c` in `s`, or -1.
pub open spec fn last_index_of(s: Seq<char>, c: char) -> int
    decreases s.len(),
{
    if s.len() == 0 {
        -1
    } else if s.last() == c {
        s.len() - 1
    } else {
        last_index_of(s.drop_last(), c)
    }
}

proof fn lemma_last_index_bounds(s: Seq<char>, c: char)
    ensures
        -1 <= last_index_of(s, c) < s.len(),
        last_index_of(s, c) >= 0 ==> s[last_index_of(s, c)] == c,
    decreases s.len(),
{
    if s.len() > 0 && s.last() != c {
        lemma_last_index_bounds(s.drop_last(), c);
    }
}

/// The extension used when an upload's file name gives none.
pub open spec fn default_extension() -> Seq<char> {
    "tar.gz"@
}

/// Whether a candidate extension is usable in the store: not empty, and without
/// a path separator.
pub open spec fn usable_extension(e: Seq<char>) -> bool {
    e.len() > 0 && forall|i: int| 0 <= i < e.len() ==> e[i] != '/' && e[i] != '\\'
}

/// The extension of an uploaded file name: the text after its last dot, where
/// there is one and it is usable; otherwise `tar.gz`.
pub open spec fn extension_of(file_name: Option<Seq<char>>) -> Seq<char> {
    match file_name {
        None => default_extension(),
        Some(n) => {
            let i = last_index_of(n, '.');
            if i >= 0 && usable_extension(n.subrange(i + 1, n.len() as int)) {
                n.subrange(i + 1, n.len() as int)
            } else {
                default_extension()
            }
        },
    }
}

/// The store's file name of an artifact: `<semver>.<extension>`.
pub open spec fn artifact_file_name_of(version: Seq<char>, file_name: Option<Seq<char>>) -> Seq<char> {
    version.push('.') + extension_of(file_name)
}

fn last_dot(s: &str) -> (r: Option<usize>)
    ensures
        r is None ==> last_index_of(s@, '.') == -1,
        r is Some ==> r.unwrap() as int == last_index_of(s@, '.'),
{
    let n = s.unicode_len();
    let mut i: usize = n;
    assert(s@.subrange(0, n as int) =~= s@);
    while i > 0
        invariant
            i <= n,
            n == s@.len(),
            last_index_of(s@, '.') == last_index_of(s@.subrange(0, i as int), '.'),
        decreases i,
    {
        let sub = Ghost(s@.subrange(0, i as int));
        assert(sub@.drop_last() =~= s@.subrange(0, i - 1));
        if s.get_char(i - 1) == '.' {
            return Some(i - 1);
        }
        i = i - 1;
    }
    assert(s@.subrange(0, 0).len() == 0);
    None
}

fn is_usable_extension(e: &str) -> (r: bool)
    ensures
        r == usable_extension(e@),
{
    let n = e.unicode_len();
    if n == 0 {
        return false;
    }
    let mut i: usize = 0;
    while i < n
        invariant
            n == e@.len(),
            i <= n,
            forall|k: int| 0 <= k < i ==> e@[k] != '/' && e@[k] != '\\',
        decreases n - i,
    {
        let c = e.get_char(i);
        if c == '/' || c == '\\' {
            return false;
        }
        i = i + 1;
    }
    true
}

/// The extension of an uploaded file name, as `extension_of` states.
pub fn file_extension(file_name: Option<&str>) -> (r: String)
    ensures
        r@ == extension_of(match file_name { Some(n) => Some(n@), None => None }),
{
    match file_name {
        None => String::from_str("tar.gz"),
        Some(n) => {
            let dot = last_dot(n);
            proof {
                lemma_last_index_bounds(n@, '.');
            }
            match dot {
                None => String::from_str("tar.gz"),
                Some(i) => {
                    let len = n.unicode_len();
                    let e = n.substring_char(i + 1, len);
                    if is_usable_extension(e) {
                        copy_text(e)
                    } else {
                        String::from_str("tar.gz")
                    }
                },
            }
        },
    }
}

/// The store's file name of an artifact.
pub fn artifact_file_name(version: &str, file_name: Option<&str>) -> (r: String)
    ensures
        r@ == artifact_file_name_of(version@, match file_name { Some(n) => Some(n@), None => None }),
{
    let mut s = copy_text(version);
    push_char(&mut s, '.');
    let e = file_extension(file_name);
    s.append(e.as_str());
    s
}

/// What an accepted upload stores: the artifact's file name, size and checksum.
pub struct ArtifactPlan {
    pub version: String,
    pub file_name: String,
    pub size: u64,
    pub checksum: String,
    pub release_notes: Option<String>,
}

/// The fields of an upload form, as received.
pub struct UploadForm {
    pub version: Option<String>,
    pub artifact: Option<Vec<u8>>,
    pub file_name: Option<String>,
    pub release_notes: Option<String>,
}

/// Why an upload is refused, if it is: `Validation` without a version or an
/// artifact or with a version that is not SemVer, then `Conflict` where the
/// version is already in the catalog.
pub open spec fn upload_refusal(version: Option<Seq<char>>, has_artifact: bool, already_exists: bool) -> Option<ApiError> {
    match version {
        None => Some(ApiError::Validation),
        Some(v) => if !has_artifact || !semver_valid(v) {
            Some(ApiError::Validation)
        } else if already_exists {
            Some(ApiError::Conflict)
        } else {
            None
        },
    }
}

/// A second upload of a version is refused as a conflict, so the stored artifact
/// stays as it is: every catalogued version passed the SemVer check when it was
/// uploaded, and an upload that brings an artifact for it is answered with
/// `Conflict` and no plan to store.
pub proof fn second_upload_conflicts(version: Seq<char>)
    requires
        semver_valid(version),
    ensures
        upload_refusal(Some(version), true, true) == Some(ApiError::Conflict),
{
}

/// Decides an upload. Fails with `Validation` when the version or the artifact is
/// missing or the version is not SemVer, with `Conflict` when the version is
/// already in the catalog; otherwise plans the stored artifact, whose checksum is
/// computed from the bytes.
pub fn upload_version(form: UploadForm, already_exists: bool) -> (r: Result<ArtifactPlan, ApiError>)
    ensures
        upload_refusal(opt_view(form.version), form.artifact is Some, already_exists) is Some ==> r
            == Err::<ArtifactPlan, ApiError>(
            upload_refusal(opt_view(form.version), form.artifact is Some, already_exists).unwrap(),
        ),
        form.version is Some && form.artifact is Some && semver_valid(form.version.unwrap()@)
            && !already_exists ==> r is Ok && ({
            let p = r.unwrap();
            let v = form.version.unwrap()@;
            let data = form.artifact.unwrap()@;
            &&& p.version@ == v
            &&& p.file_name@ == artifact_file_name_of(v, opt_view(form.file_name))
            &&& p.size == data.len()
            &&& p.checksum@ == checksum_of(data)
            &&& opt_view(p.release_notes) == opt_view(form.release_notes)
        }),
{
    let version = match form.version {
        Some(v) => v,
        None => return Err(ApiError::Validation),
    };
    let data = match form.artifact {
        Some(d) => d,
        None => return Err(ApiError::Validation),
    };
    if !is_valid_semver(version.as_str()) {
        return Err(ApiError::Validation);
    }
    if already_exists {
        return Err(ApiError::Conflict);
    }
    let checksum = compute_checksum(data.as_slice());
    let file_name = match &form.file_name {
        Some(n) => artifact_file_name(version.as_str(), Some(n.as_str())),
        None => artifact_file_name(version.as_str(), None),
    };
    Ok(ArtifactPlan {
        version,
        file_name,
        size: data.len() as u64,
        checksum,
        release_notes: form.release_notes,
    })
}

/// The catalog row of a planned artifact, active from the start.
pub fn create_version(plan: ArtifactPlan, id: String, now: i64) -> (r: Version)
    ensures
        r.id@ == id@,
        r.version@ == plan.version@,
        r.artifact_path@ == plan.file_name@,
        r.artifact_size == plan.size,
        r.checksum@ == plan.checksum@,
        opt_view(r.release_notes) == opt_view(plan.release_notes),
        r.is_active,
        r.created_at == now,
{
    Version {
        id,
        version: plan.version,
        artifact_path: plan.file_name,
        artifact_size: plan.size,
        checksum: plan.checksum,
        release_notes: plan.release_notes,
        is_active: true,
        created_at: now,
    }
}

/// The `Content-Disposition` header of an artifact download.
pub fn content_disposition(file_name: &str) -> (r: String)
    ensures
        r@ == "attachment; filename=\""@ + file_name@ + "\""@,
{
    let mut s = join2("attachment; filename=\"", file_name);
    s.append("\"");
    s
}

} // verus!
