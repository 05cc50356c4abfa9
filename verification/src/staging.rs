//! Staging of the immutable OpenBLAS source tree into a fresh,
//! writable output directory, behind a checked precondition: the
//! source checkout must hold the external build's entry-point
//! `Makefile`.

use vstd::prelude::*;
use vstd::string::*;

use crate::error::Error;

verus! {

/// `base`, a path separator, and `name`.
pub open spec fn spec_joined(base: Seq<char>, name: Seq<char>) -> Seq<char> {
    base + "/"@ + name
}

/// Appends one path component to a base path, separator included.
pub fn join_path(base: &String, name: &str) -> (r: String)
    ensures
        r@ == spec_joined(base@, name@),
{
    let mut r = base.clone();
    r.append("/");
    r.append(name);
    r
}

/// Relies on std::path::Path::exists: whether anything exists on disk
/// at the path. The answer depends on the filesystem, so nothing is
/// promised of it.
#[verifier::external_body]
fn path_exists(path: &String) -> bool {
    std::path::Path::new(path.as_str()).exists()
}

/// Relies on fs_extra::dir::remove: removes the directory tree at the
/// path if one exists, and succeeds without work if none does. The
/// outcome depends on the filesystem, so nothing is promised of it.
#[verifier::external_body]
fn remove_dir_tree(path: &String) -> Result<(), String> {
    match fs_extra::dir::remove(path.as_str()) {
        Ok(()) => Ok(()),
        Err(e) => Err(e.to_string()),
    }
}

/// Relies on fs_extra::dir::copy with `copy_inside` and `overwrite`:
/// recursively copies the source tree so its contents land directly
/// inside `to` (not nested in an extra subdirectory, since `to` does
/// not exist when this is called). The outcome depends on the
/// filesystem, so nothing is promised of it.
#[verifier::external_body]
fn copy_dir_tree(from: &String, to: &String) -> Result<(), String> {
    let options = fs_extra::dir::CopyOptions::new().overwrite(true).copy_inside(true);
    match fs_extra::dir::copy(from.as_str(), to.as_str(), &options) {
        Ok(_) => Ok(()),
        Err(e) => Err(e.to_string()),
    }
}

/// Decides the staging precondition from the observed presence of the
/// build-entry marker: success exactly when the marker is present,
/// and the uninitialized-checkout configuration error, carrying the
/// source path, exactly when it is not.
pub fn check_source_marker(marker_present: bool, source_dir: &String) -> (r: Result<(), Error>)
    ensures
        r is Ok <==> marker_present,
        (!marker_present ==> (r matches Err(e) && e matches Error::Configuration { path }
            && path@ == source_dir@)),
{
    if marker_present {
        Ok(())
    } else {
        Err(Error::Configuration { path: source_dir.clone() })
    }
}

/// Folds one filesystem step's outcome into the staging result:
/// success exactly when the step succeeded, and otherwise a staging
/// error carrying the output path and the step's own reason.
pub fn staging_step_result(step: Result<(), String>, out_dir: &String) -> (r: Result<(), Error>)
    ensures
        r is Ok <==> step is Ok,
        (step matches Err(m) ==> (r matches Err(e) && e matches Error::Staging { path, reason }
            && path@ == out_dir@ && reason@ == m@)),
{
    match step {
        Ok(()) => Ok(()),
        Err(m) => Err(Error::Staging { path: out_dir.clone(), reason: m }),
    }
}

/// The path of the vendored OpenBLAS source tree: the `source`
/// subdirectory of the given manifest directory. An uninitialized
/// checkout — no build-entry `Makefile` inside it — is a
/// configuration error, reported before any other work.
pub fn openblas_source_dir(manifest_dir: &String) -> (r: Result<String, Error>)
    ensures
        (r matches Ok(p) ==> p@ == spec_joined(manifest_dir@, "source"@)),
        (r matches Err(e) ==> (e matches Error::Configuration { path } && path@ == spec_joined(
            manifest_dir@,
            "source"@,
        ))),
{
    let path = join_path(manifest_dir, "source");
    let marker = join_path(&path, "Makefile");
    let present = path_exists(&marker);
    match check_source_marker(present, &path) {
        Ok(()) => Ok(path),
        Err(e) => Err(e),
    }
}

/// Stages the source tree at `source_dir` into a fresh `out_dir`.
///
/// The build-entry marker is checked first, and its absence
/// short-circuits all other work: no copy is attempted and no output
/// directory is touched. Otherwise any directory already at `out_dir`
/// is destroyed, then the whole source tree is copied so its contents
/// land directly inside `out_dir`; the original `source_dir` is never
/// written to. Any filesystem failure aborts the whole operation.
///
/// Staging is destructive and non-transactional: two concurrent
/// builds must not share one output directory.
pub fn stage(source_dir: &String, out_dir: &String) -> (r: Result<(), Error>)
    ensures
        (r matches Err(e) ==> match e {
            Error::Configuration { path } => path@ == source_dir@,
            Error::Staging { path, reason: _ } => path@ == out_dir@,
            _ => false,
        }),
{
    let marker = join_path(source_dir, "Makefile");
    let present = path_exists(&marker);
    match check_source_marker(present, source_dir) {
        Ok(()) => {},
        Err(e) => {
            return Err(e);
        },
    }
    if path_exists(out_dir) {
        match staging_step_result(remove_dir_tree(out_dir), out_dir) {
            Ok(()) => {},
            Err(e) => {
                return Err(e);
            },
        }
    }
    staging_step_result(copy_dir_tree(source_dir, out_dir), out_dir)
}

} // verus!
