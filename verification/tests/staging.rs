//! Tests of staging: destructive replacement of the output directory
//! and the build-entry marker precondition.

use std::path::Path;

use openblas_build::stage;
use openblas_build::Error;

fn reset_dir(path: &str) {
    fs_extra::dir::remove(path).unwrap();
}

fn make_dir(path: &str) {
    fs_extra::dir::create_all(path, true).unwrap();
}

fn write_file(path: &str, content: &str) {
    fs_extra::file::write_all(path, content).unwrap();
}

fn read_file(path: &str) -> String {
    fs_extra::file::read_to_string(path).unwrap()
}

#[test]
fn staging_replaces_existing_output_contents() {
    let src = "/tmp/openblas_build_test_stage_src";
    let out = "/tmp/openblas_build_test_stage_out";
    reset_dir(src);
    reset_dir(out);
    make_dir(src);
    make_dir(&format!("{}/sub", src));
    write_file(&format!("{}/Makefile", src), "all:\n");
    write_file(&format!("{}/sub/data.txt", src), "payload");
    make_dir(&format!("{}/old", out));
    write_file(&format!("{}/stale.txt", out), "stale");

    let result = stage(&src.to_string(), &out.to_string());
    assert!(result.is_ok());
    assert!(!Path::new(&format!("{}/stale.txt", out)).exists());
    assert!(!Path::new(&format!("{}/old", out)).exists());
    assert_eq!(read_file(&format!("{}/Makefile", out)), "all:\n");
    assert_eq!(read_file(&format!("{}/sub/data.txt", out)), "payload");
    assert_eq!(read_file(&format!("{}/Makefile", src)), "all:\n");

    reset_dir(src);
    reset_dir(out);
}

#[test]
fn staging_without_marker_fails_before_any_side_effect() {
    let src = "/tmp/openblas_build_test_nomarker_src";
    let out = "/tmp/openblas_build_test_nomarker_out";
    reset_dir(src);
    reset_dir(out);
    make_dir(src);
    write_file(&format!("{}/notes.txt", src), "no build entry here");

    let result = stage(&src.to_string(), &out.to_string());
    match result {
        Err(Error::Configuration { path }) => {
            assert_eq!(path, src);
        },
        other => panic!("expected a configuration error, got {:?}", other),
    }
    assert!(!Path::new(out).exists());

    reset_dir(src);
}

#[test]
fn configuration_error_names_uninitialized_checkout() {
    let e = Error::Configuration { path: "/tmp/somewhere/source".to_string() };
    let msg = e.message();
    assert!(msg.contains("OpenBLAS repository has not been cloned"));
    assert!(msg.contains("git submodule update --init"));
    assert!(msg.contains("/tmp/somewhere/source"));
}

#[test]
fn source_dir_found_when_marker_present() {
    let manifest = "/tmp/openblas_build_test_manifest";
    reset_dir(manifest);
    make_dir(&format!("{}/source", manifest));
    write_file(&format!("{}/source/Makefile", manifest), "all:\n");

    let found = openblas_build::openblas_source_dir(&manifest.to_string());
    assert_eq!(found.unwrap(), format!("{}/source", manifest));

    reset_dir(manifest);
}

#[test]
fn source_dir_rejected_when_marker_absent() {
    let manifest = "/tmp/openblas_build_test_manifest_bare";
    reset_dir(manifest);
    make_dir(&format!("{}/source", manifest));

    let found = openblas_build::openblas_source_dir(&manifest.to_string());
    match found {
        Err(Error::Configuration { path }) => {
            assert_eq!(path, format!("{}/source", manifest));
        },
        other => panic!("expected a configuration error, got {:?}", other),
    }

    reset_dir(manifest);
}

#[test]
fn staging_error_reports_output_path_and_reason() {
    let e = Error::Staging { path: "/tmp/out".to_string(), reason: "disk full".to_string() };
    let msg = e.message();
    assert_eq!(msg, "Failed to stage OpenBLAS source into `/tmp/out`: disk full");
}
