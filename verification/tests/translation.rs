//! Tests of the option-to-argument translation.

use openblas_build::BuildOption;
use openblas_build::Interface;
use openblas_build::Target;

fn no_flags() -> BuildOption {
    BuildOption {
        no_static: false,
        no_shared: false,
        no_cblas: false,
        no_lapack: false,
        no_lapacke: false,
        no_fortran: false,
        use_thread: false,
        use_openmp: false,
        dynamic_arch: false,
        interface: Interface::LP64,
        target: None,
    }
}

#[test]
fn default_option_yields_no_args() {
    let opt = BuildOption::default();
    let args = opt.make_args();
    assert!(args.is_empty());
}

#[test]
fn each_flag_maps_to_exactly_one_token() {
    let cases: Vec<(BuildOption, &str)> = vec![
        (BuildOption { no_static: true, ..no_flags() }, "NO_STATIC=1"),
        (BuildOption { no_shared: true, ..no_flags() }, "NO_SHARED=1"),
        (BuildOption { no_cblas: true, ..no_flags() }, "NO_CBLAS=1"),
        (BuildOption { no_lapack: true, ..no_flags() }, "NO_LAPACK=1"),
        (BuildOption { no_lapacke: true, ..no_flags() }, "NO_LAPACKE=1"),
        (BuildOption { no_fortran: true, ..no_flags() }, "NOFORTRAN=1"),
        (BuildOption { use_thread: true, ..no_flags() }, "USE_THREAD=1"),
        (BuildOption { use_openmp: true, ..no_flags() }, "USE_OPENMP=1"),
    ];
    for (opt, expected) in cases {
        let args = opt.make_args();
        assert_eq!(args, vec![expected.to_string()]);
    }
}

#[test]
fn token_order_is_stable_across_calls() {
    let opt = BuildOption {
        no_static: true,
        no_shared: true,
        no_cblas: true,
        no_lapack: true,
        no_lapacke: true,
        no_fortran: true,
        use_thread: true,
        use_openmp: true,
        interface: Interface::ILP64,
        target: Some(Target::ZEN),
        ..no_flags()
    };
    let expected = vec![
        "NO_STATIC=1".to_string(),
        "NO_SHARED=1".to_string(),
        "NO_CBLAS=1".to_string(),
        "NO_LAPACK=1".to_string(),
        "NO_LAPACKE=1".to_string(),
        "NOFORTRAN=1".to_string(),
        "USE_THREAD=1".to_string(),
        "USE_OPENMP=1".to_string(),
        "INTERFACE64=1".to_string(),
        "TARGET=ZEN".to_string(),
    ];
    let first = opt.make_args();
    let second = opt.make_args();
    assert_eq!(first, expected);
    assert_eq!(second, expected);
}

#[test]
fn ilp64_adds_exactly_one_interface_token() {
    let opt = BuildOption { interface: Interface::ILP64, ..no_flags() };
    assert_eq!(opt.make_args(), vec!["INTERFACE64=1".to_string()]);
    let lp64 = BuildOption { interface: Interface::LP64, ..no_flags() };
    assert!(lp64.make_args().is_empty());
}

#[test]
fn target_adds_exactly_one_canonical_token() {
    let opt = BuildOption { target: Some(Target::CORTEXA72), ..no_flags() };
    assert_eq!(opt.make_args(), vec!["TARGET=CORTEXA72".to_string()]);
    let without = BuildOption { target: None, ..no_flags() };
    assert!(without.make_args().is_empty());
}

#[test]
fn target_token_is_canonical_uppercase_identifier() {
    assert_eq!(Target::HASWELL.token(), "HASWELL");
    assert_eq!(Target::CORTEXA72.token(), "CORTEXA72");
    assert_eq!(Target::ZARCH_GENERIC.token(), "ZARCH_GENERIC");
    assert_eq!(Target::OPTERON_SSE3.token(), "OPTERON_SSE3");
}

#[test]
fn thread_flag_with_haswell_target_scenario() {
    let opt = BuildOption {
        use_thread: true,
        dynamic_arch: false,
        target: Some(Target::HASWELL),
        ..no_flags()
    };
    let args = opt.make_args();
    assert_eq!(args, vec!["USE_THREAD=1".to_string(), "TARGET=HASWELL".to_string()]);
}

#[test]
fn dynamic_arch_emits_no_token() {
    let opt = BuildOption { dynamic_arch: true, ..no_flags() };
    assert!(opt.make_args().is_empty());
}
