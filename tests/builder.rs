use scx_integration_test_framework::builder::is_spec_file;
use scx_integration_test_framework::builder::suite_name;
use scx_integration_test_framework::builder::BuildError;
use scx_integration_test_framework::builder::Builder;
use scx_integration_test_framework::codegen::generate_runner;
use scx_integration_test_framework::codegen::generate_target;
use scx_integration_test_framework::suite::Scheduler;
use scx_integration_test_framework::suite::TestConfig;
use scx_integration_test_framework::suite::Workload;
use scx_integration_test_framework::topology::Topology;

fn empty_suite() -> TestConfig {
    TestConfig {
        topology: Topology::from_parts(None, None, None, None),
        workload: Workload::StressNg { args: vec![] },
        scheduler: Scheduler::Layered { args: vec![], config: "{}".to_string() },
        cases: vec![],
    }
}

#[test]
fn spec_files_are_toml_files() {
    assert!(is_spec_file("tests/a.toml", true));
    assert!(!is_spec_file("tests/a.toml", false));
    assert!(!is_spec_file("tests/a.tomlx", true));
    assert!(!is_spec_file("tests/toml", true));
    assert!(!is_spec_file("tests/.toml", true));
}

#[test]
fn dir_registers_matching_files_in_order() {
    let mut b = Builder::new("/out".to_string());
    let entries = vec![
        ("d/b.toml".to_string(), true),
        ("d/readme.md".to_string(), true),
        ("d/sub.toml".to_string(), false),
        ("d/a.toml".to_string(), true),
    ];
    assert!(b.register_test_dir(&entries));
    assert_eq!(b.test_paths, vec!["d/b.toml".to_string(), "d/a.toml".to_string()]);
}

#[test]
fn dir_without_specs_registers_nothing() {
    let mut b = Builder::new("/out".to_string());
    b.register_test("x.toml".to_string());
    let entries = vec![("d/notes.txt".to_string(), true)];
    assert!(!b.register_test_dir(&entries));
    assert!(!b.register_test_dir(&vec![]));
    assert_eq!(b.test_paths, vec!["x.toml".to_string()]);
}

#[test]
fn outputs_must_be_relative() {
    let mut b = Builder::new("/out".to_string());
    assert!(matches!(b.enable_target("/abs/target.rs".to_string()), Err(BuildError::NotRelative(p)) if p == "/abs/target.rs"));
    assert!(b.target_filename.is_none());
    assert!(b.enable_target("target.rs".to_string()).is_ok());
    assert!(matches!(b.enable_runner("/r.rs".to_string()), Err(BuildError::NotRelative(_))));
    assert!(b.enable_runner("gen/r.rs".to_string()).is_ok());
    assert_eq!(b.target_filename.as_deref(), Some("target.rs"));
    assert_eq!(b.runner_filename.as_deref(), Some("gen/r.rs"));
}

#[test]
fn suite_name_is_file_stem() {
    assert_eq!(suite_name("tests/basic.toml").as_deref(), Some("basic"));
    assert_eq!(suite_name("basic").as_deref(), Some("basic"));
    assert_eq!(suite_name("/"), None);
}

#[test]
fn build_writes_enabled_outputs() {
    let mut b = Builder::new("/out".to_string());
    let suites = vec![("one".to_string(), empty_suite()), ("two".to_string(), empty_suite())];
    let none = b.build(&suites);
    assert!(none.target.is_none() && none.runner.is_none());
    b.enable_runner("r.rs".to_string()).unwrap();
    let out = b.build(&suites);
    assert!(out.target.is_none());
    let (path, src) = out.runner.unwrap();
    assert_eq!(path, "r.rs");
    assert_eq!(src, generate_runner("one", &suites[0].1) + &generate_runner("two", &suites[1].1));
    b.enable_target("t.rs".to_string()).unwrap();
    let (tpath, tsrc) = b.build(&suites).target.unwrap();
    assert_eq!(tpath, "t.rs");
    assert_eq!(tsrc, generate_target(&suites));
}
