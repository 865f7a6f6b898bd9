use pyo3_pack::ArtifactMessage;
use pyo3_pack::BindingStrategy;
use pyo3_pack::DriverError;
use pyo3_pack::abi3_tag;
use pyo3_pack::driver_result;
use pyo3_pack::plan_tasks;
use pyo3_pack::resolve_artifact;
use pyo3_pack::scan_build_stream;
use pyo3_pack::shared_build_args;
use pyo3_pack::str_equal;
use pyo3_pack::str_starts_with;
use pyo3_pack::version_feature;
use pyo3_pack::wheel_tags;

fn artifact_line(name: &str, crate_types: &str, filenames: &str) -> String {
    format!(
        "{{\"reason\":\"compiler-artifact\",\"package_id\":\"example 0.1.0 (path+file:///x)\",\"manifest_path\":\"/x/Cargo.toml\",\"target\":{{\"name\":\"{}\",\"kind\":[\"cdylib\"],\"crate_types\":{},\"src_path\":\"/x/src/lib.rs\",\"edition\":\"2021\"}},\"profile\":{{\"opt_level\":\"3\",\"debuginfo\":0,\"debug_assertions\":false,\"overflow_checks\":false,\"test\":false}},\"features\":[],\"filenames\":{},\"executable\":null,\"fresh\":false}}",
        name, crate_types, filenames
    )
}

fn build_script_line(package_id: &str, linked_libs: &str) -> String {
    format!(
        "{{\"reason\":\"build-script-executed\",\"package_id\":\"{}\",\"linked_libs\":{},\"linked_paths\":[\"native=/usr/lib\"],\"cfgs\":[\"Py_3_6\"],\"env\":[],\"out_dir\":\"/x/out\"}}",
        package_id, linked_libs
    )
}

#[test]
fn stream_scan_resolves_the_artifact() {
    let lines = vec![
        String::from("warning: something unrelated"),
        build_script_line("pyo3 0.2.5 (path+file:///x/pyo3)", "[\"python3.6m\"]"),
        String::from("{\"not\":\"a build message\"}"),
        artifact_line(
            "example_lib",
            "[\"cdylib\"]",
            "[\"/x/target/release/libexample_lib.so\"]",
        ),
    ];
    let scan = scan_build_stream(&lines, "example_lib", "pyo3");
    assert!(scan.linkage.is_some());
    assert_eq!(scan.linkage.as_ref().unwrap().linked_libs, vec!["python3.6m".to_string()]);
    let resolved = driver_result(&scan, true);
    assert_eq!(resolved.unwrap(), "/x/target/release/libexample_lib.so");
}

#[test]
fn last_matching_artifact_wins() {
    let lines = vec![
        artifact_line("example_lib", "[\"cdylib\"]", "[\"/old.so\"]"),
        artifact_line("other_lib", "[\"cdylib\"]", "[\"/other.so\"]"),
        artifact_line("example_lib", "[\"cdylib\"]", "[\"/new.so\"]"),
    ];
    let scan = scan_build_stream(&lines, "example_lib", "pyo3");
    assert_eq!(driver_result(&scan, true).unwrap(), "/new.so");
}

#[test]
fn missing_artifact_message_is_artifact_missing() {
    let lines = vec![
        String::from("noise"),
        build_script_line("pyo3 0.2.5 (path+file:///x/pyo3)", "[\"python3.6m\"]"),
        artifact_line("some_other_target", "[\"cdylib\"]", "[\"/other.so\"]"),
    ];
    let scan = scan_build_stream(&lines, "example_lib", "pyo3");
    assert!(scan.artifact.is_none());
    assert_eq!(driver_result(&scan, true).unwrap_err(), DriverError::ArtifactMissing);
}

#[test]
fn artifact_without_cdylib_kind_is_kind_missing() {
    let lines = vec![artifact_line(
        "example_lib",
        "[\"lib\",\"rlib\"]",
        "[\"/x/libexample_lib.rlib\",\"/x/libexample_lib.rlib\"]",
    )];
    let scan = scan_build_stream(&lines, "example_lib", "pyo3");
    assert!(scan.artifact.is_some());
    assert_eq!(driver_result(&scan, true).unwrap_err(), DriverError::ArtifactKindMissing);
}

#[test]
fn noise_lines_do_not_change_the_outcome() {
    let with_noise = vec![
        String::from(""),
        artifact_line("example_lib", "[\"cdylib\"]", "[\"/a.so\"]"),
        String::from("}{ unparseable"),
    ];
    let without_noise = vec![artifact_line("example_lib", "[\"cdylib\"]", "[\"/a.so\"]")];
    let left = driver_result(&scan_build_stream(&with_noise, "example_lib", "pyo3"), true);
    let right = driver_result(&scan_build_stream(&without_noise, "example_lib", "pyo3"), true);
    assert_eq!(left.unwrap(), right.unwrap());
}

#[test]
fn failed_build_wins_over_any_stream() {
    let lines = vec![artifact_line("example_lib", "[\"cdylib\"]", "[\"/a.so\"]")];
    let scan = scan_build_stream(&lines, "example_lib", "pyo3");
    assert_eq!(driver_result(&scan, false).unwrap_err(), DriverError::BuildFailure);
}

#[test]
fn resolve_picks_the_kind_position() {
    let artifact = Some(ArtifactMessage {
        target_name: String::from("example_lib"),
        crate_types: vec![String::from("lib"), String::from("cdylib")],
        filenames: vec![String::from("/x/lib.rlib"), String::from("/x/lib.so")],
    });
    assert_eq!(resolve_artifact(&artifact).unwrap(), "/x/lib.so");
}

#[test]
fn plan_parsing_counts_invocations() {
    let doc = "{\"invocations\":[{\"args\":[]},{\"args\":[]},{\"args\":[]}],\"inputs\":[]}";
    assert_eq!(plan_tasks(true, doc).unwrap(), 3);
    assert_eq!(plan_tasks(true, "not json").unwrap_err(), DriverError::PlanFailure);
    assert_eq!(plan_tasks(false, doc).unwrap_err(), DriverError::PlanFailure);
}

#[test]
fn shared_args_are_assembled_in_order() {
    let args = shared_build_args("pyo3", 3, "/x/Cargo.toml", false);
    assert_eq!(
        args,
        vec![
            "--lib".to_string(),
            "--quiet".to_string(),
            "--manifest-path".to_string(),
            "/x/Cargo.toml".to_string(),
            "--features".to_string(),
            "pyo3/python3".to_string(),
            "--release".to_string(),
        ]
    );
    let debug_args = shared_build_args("pyo3", 3, "/x/Cargo.toml", true);
    assert_eq!(debug_args.len(), 6);
    assert!(!debug_args.contains(&"--release".to_string()));
}

#[test]
fn version_feature_names_the_major_version() {
    assert_eq!(version_feature("pyo3", 3), "pyo3/python3");
    assert_eq!(version_feature("rust-cpython", 2), "rust-cpython/python2");
}

#[test]
fn string_helpers_compare_by_contents() {
    assert!(str_equal("cdylib", "cdylib"));
    assert!(!str_equal("cdylib", "dylib"));
    assert!(str_starts_with("pyo3 0.2.5", "pyo3"));
    assert!(!str_starts_with("py", "pyo3"));
}

#[test]
fn wheel_tags_follow_the_strategy() {
    let universal = vec![String::from("py2-none-linux_x86_64"), String::from("py3-none-linux_x86_64")];
    let versioned = BindingStrategy::VersionedBindings { name: String::from("pyo3") };
    assert_eq!(
        wheel_tags(&versioned, "cp310-cp310-linux_x86_64", "linux_x86_64", &universal),
        vec!["cp310-cp310-linux_x86_64".to_string()]
    );
    let stable = BindingStrategy::StableABIBindings { major: 3, minor: 8 };
    assert_eq!(
        wheel_tags(&stable, "ignored", "linux_x86_64", &universal),
        vec!["cp38-abi3-linux_x86_64".to_string()]
    );
    let executable = BindingStrategy::Executable;
    assert_eq!(wheel_tags(&executable, "ignored", "linux_x86_64", &universal), universal);
    let ffi = BindingStrategy::RawFFI;
    assert_eq!(wheel_tags(&ffi, "ignored", "linux_x86_64", &universal), universal);
}

#[test]
fn abi3_tag_is_rendered_exactly() {
    assert_eq!(abi3_tag(3, 8, "manylinux1_x86_64"), "cp38-abi3-manylinux1_x86_64");
    assert_eq!(abi3_tag(3, 10, "win_amd64"), "cp310-abi3-win_amd64");
}
