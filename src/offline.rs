//! Offline apply: the same transaction, fed from a local artifact and an optional
//! manifest file instead of the server.
use vstd::prelude::*;
use crate::agent::{join_path, path_join};
use crate::archive::{path_stays_inside, stays_inside};
use crate::models::{copy_opt, opt_view};
use crate::text::copy_text;
use crate::transaction::{Stage, Transaction};

verus! {

/// The contents of the manifest file that comes with an offline artifact.
#[derive(Clone, Debug)]
pub struct UsbManifest {
    pub version: String,
    pub checksum: String,
    pub artifact: String,
    pub release_notes: Option<String>,
}

/// The artifact's file name where a manifest names none.
pub fn default_artifact() -> (r: String)
    ensures
        r@ == "update.tar.gz"@,
{
    String::from_str("update.tar.gz")
}

/// Why an offline apply is refused.
#[derive(Clone, Copy, Debug, PartialEq, Eq, Structural)]
pub enum ApplyError {
    /// Neither the command line nor a manifest gives the target version.
    MissingVersion,
    /// The manifest names an artifact outside its directory.
    UnsafeArtifactPath,
}

/// What an offline apply installs, and the checksum to check, if any.
pub struct OfflinePlan {
    pub target_version: String,
    pub checksum: Option<String>,
}

/// The first of two optional texts that is given.
pub open spec fn first_given(a: Option<Seq<char>>, b: Option<Seq<char>>) -> Option<Seq<char>> {
    if a is Some {
        a
    } else {
        b
    }
}

/// The manifest's version, if there is a manifest.
pub open spec fn manifest_version(m: Option<&UsbManifest>) -> Option<Seq<char>> {
    match m {
        Some(x) => Some(x.version@),
        None => None,
    }
}

/// The manifest's checksum, if there is a manifest.
pub open spec fn manifest_checksum(m: Option<&UsbManifest>) -> Option<Seq<char>> {
    match m {
        Some(x) => Some(x.checksum@),
        None => None,
    }
}

/// Merges the command line and the manifest, the command line first. The target
/// version is required; without a checksum the check is skipped.
pub fn resolve_offline(
    version: &Option<String>,
    checksum: &Option<String>,
    manifest: Option<&UsbManifest>,
) -> (r: Result<OfflinePlan, ApplyError>)
    ensures
        first_given(opt_view(*version), manifest_version(manifest)) is None ==> r == Err::<
            OfflinePlan,
            ApplyError,
        >(ApplyError::MissingVersion),
        first_given(opt_view(*version), manifest_version(manifest)) is Some ==> r is Ok && ({
            let p = r.unwrap();
            &&& Some(p.target_version@) == first_given(opt_view(*version), manifest_version(manifest))
            &&& opt_view(p.checksum) == first_given(opt_view(*checksum), manifest_checksum(manifest))
        }),
{
    let target_version = match version {
        Some(v) => copy_text(v.as_str()),
        None => match manifest {
            Some(m) => copy_text(m.version.as_str()),
            None => return Err(ApplyError::MissingVersion),
        },
    };
    let checksum = match checksum {
        Some(c) => Some(copy_text(c.as_str())),
        None => match manifest {
            Some(m) => Some(copy_text(m.checksum.as_str())),
            None => None,
        },
    };
    Ok(OfflinePlan { target_version, checksum })
}

/// The transaction of an offline apply: the bytes are at hand, so it starts at
/// the checksum check, or at the backup where no checksum is known. `marker` is
/// the version marker's exact contents, restored as they were on a rollback.
pub fn start_offline(plan: &OfflinePlan, current_version: &Option<String>, marker: &Option<String>) -> (r: Transaction)
    ensures
        r.target@ == plan.target_version@,
        opt_view(r.previous) == opt_view(*current_version),
        opt_view(r.previous_marker) == opt_view(*marker),
        r.verify == plan.checksum is Some,
        r.stage == (if plan.checksum is Some { Stage::Verify } else { Stage::Backup }),
        !r.backup_taken,
{
    Transaction::begin(
        copy_text(plan.target_version.as_str()),
        copy_opt(current_version),
        copy_opt(marker),
        true,
        plan.checksum.is_some(),
    )
}

/// The path of the artifact that a manifest names inside its directory; the name
/// must stay inside that directory.
pub fn artifact_in_directory(dir: &str, manifest: &UsbManifest) -> (r: Result<String, ApplyError>)
    ensures
        path_stays_inside(manifest.artifact@) ==> r is Ok && r.unwrap()@ == path_join(
            dir@,
            manifest.artifact@,
        ),
        !path_stays_inside(manifest.artifact@) ==> r == Err::<String, ApplyError>(
            ApplyError::UnsafeArtifactPath,
        ),
{
    if stays_inside(manifest.artifact.as_str()) {
        Ok(join_path(dir, manifest.artifact.as_str()))
    } else {
        Err(ApplyError::UnsafeArtifactPath)
    }
}

} // verus!
