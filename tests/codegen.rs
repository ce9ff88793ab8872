use scx_integration_test_framework::codegen::encode_topology;
use scx_integration_test_framework::codegen::generate_runner;
use scx_integration_test_framework::codegen::generate_target;
use scx_integration_test_framework::codegen::warmup_millis;
use scx_integration_test_framework::suite::Case;
use scx_integration_test_framework::suite::CaseTest;
use scx_integration_test_framework::suite::repeated_name;
use scx_integration_test_framework::suite::Scheduler;
use scx_integration_test_framework::suite::SpecError;
use scx_integration_test_framework::suite::TestConfig;
use scx_integration_test_framework::suite::Workload;
use scx_integration_test_framework::topology::Topology;

fn case(delay_s: u32) -> Case {
    Case::with_delay(
        Some(delay_s),
        CaseTest::Bpftrace { script: "s".to_string(), expect_json: "{}".to_string() },
    )
}

fn suite(args: &[&str], cases: Vec<(&str, Case)>) -> TestConfig {
    TestConfig {
        topology: Topology::from_parts(None, None, None, None),
        workload: Workload::StressNg { args: args.iter().map(|a| a.to_string()).collect() },
        scheduler: Scheduler::Layered { args: vec!["-v".to_string()], config: "[]".to_string() },
        cases: cases.into_iter().map(|(n, c)| (n.to_string(), c)).collect(),
    }
}

#[test]
fn case_identifier_matches_in_target_and_runner() {
    let cfg = suite(&["--cpu", "4"], vec![("bar", case(1))]);
    let runner = generate_runner("foo", &cfg);
    let cfgs = vec![("foo".to_string(), cfg)];
    let target = generate_target(&cfgs);
    assert!(target.contains("    \"foo_bar\" => foo_bar_target(),\n"));
    assert!(target.contains("fn foo_bar_target() {\n"));
    assert!(runner.contains("run_target_in_vm(&topo, TARGET_BINARY.into(), \"foo_bar\").unwrap();"));
}

#[test]
fn workload_args_become_two_literals() {
    let cfgs = vec![("s".to_string(), suite(&["--cpu", "4"], vec![]))];
    let target = generate_target(&cfgs);
    assert!(target.contains("  let args: Vec<&str> = vec![ \"--cpu\", \"4\", ];\n  let mut c"));
    let start = target.find("vec![ \"--cpu\"").unwrap();
    let end = start + target[start..].find(']').unwrap();
    assert_eq!(target[start..end].matches("\", ").count(), 2);
}

#[test]
fn only_quotes_are_escaped() {
    let cfgs = vec![("s".to_string(), suite(&["a\"b", "c\\d"], vec![]))];
    let target = generate_target(&cfgs);
    assert!(target.contains("vec![ \"a\\\"b\", \"c\\d\", ]"));
}

#[test]
fn zero_cases_leave_only_catch_all() {
    let cfgs = vec![("empty".to_string(), suite(&[], vec![]))];
    let target = generate_target(&cfgs);
    assert!(target.contains(
        "  match arg.as_str() {\n    &_ => anyhow::bail!(\"invalid case name: {}\", arg.as_str()),\n  }\n  Ok(())\n}\n"
    ));
    assert!(!target.contains("_target()"));
    assert!(target.contains("fn run_workload_empty() -> anyhow::Result<target_common::WorkloadHandle> {\n"));
    assert!(target.contains("fn run_scheduler_empty() -> anyhow::Result<target_common::SchedulerHandle> {\n"));
    assert!(target.starts_with("use scx_integration_test_framework::target_common;\n\n"));
}

#[test]
fn no_suites_still_give_an_entry_point() {
    let target = generate_target(&[]);
    assert_eq!(
        target,
        "use scx_integration_test_framework::target_common;\n\n\nfn main() -> anyhow::Result<()> {\n  let arg = std::env::args().nth(1).expect(\"case argument required\");\n  match arg.as_str() {\n    &_ => anyhow::bail!(\"invalid case name: {}\", arg.as_str()),\n  }\n  Ok(())\n}\n"
    );
}

#[test]
fn one_runner_test_per_case() {
    let cfg = suite(&[], vec![("alpha", case(1)), ("beta", case(2))]);
    let runner = generate_runner("s", &cfg);
    assert_eq!(runner.matches("#[test]\n").count(), 2);
    assert!(runner.contains("#[test]\nfn alpha() {\n"));
    assert!(runner.contains("#[test]\nfn beta() {\n"));
    assert!(runner.find("fn alpha()").unwrap() < runner.find("fn beta()").unwrap());
}

#[test]
fn runner_text_is_exact() {
    let cfg = suite(&[], vec![("c", case(0))]);
    let runner = generate_runner("s", &cfg);
    let expected = [
        "mod s {use scx_integration_test_framework::runner_common;\n\n",
        "const TARGET_BINARY: &str = env!(concat!(\"CARGO_BIN_EXE_\", env!(\"CARGO_PKG_NAME\")));\n",
        "fn run() -> anyhow::Result<()> {\n  todo!(\"run\")\n}\n\n",
        "#[test]\nfn c() {\n",
        "  let _ = env_logger::builder().is_test(true).try_init();\n",
        "  let topo = runner_common::decode_topology(r#\"{\"sockets\":1,\"llcs_per_socket\":1,\"cores_per_llc\":2,\"threads_per_core\":2}\"#).unwrap();\n",
        "  let target_status = runner_common::run_target_in_vm(&topo, TARGET_BINARY.into(), \"s_c\").unwrap();\n",
        "  assert!(target_status == 0, \"target failed with exit code {:?}\", target_status);\n",
        "}\n\n}\n",
    ]
    .concat();
    assert_eq!(runner, expected);
}

#[test]
fn zero_delay_sleeps_for_floor() {
    assert_eq!(warmup_millis(0), 100);
    let cfgs = vec![("s".to_string(), suite(&[], vec![("c", case(0))]))];
    let target = generate_target(&cfgs);
    assert!(target.contains("  std::thread::sleep(std::time::Duration::from_millis(100));\n  assert!(workload"));
    assert!(target.contains("sleeping for 100ms while they warm up"));
}

#[test]
fn delay_in_seconds_becomes_millis() {
    assert_eq!(warmup_millis(5), 5000);
    assert_eq!(warmup_millis(4294967295), 4294967295000);
    let cfgs = vec![("s".to_string(), suite(&[], vec![("c", case(5))]))];
    let target = generate_target(&cfgs);
    assert!(target.contains("from_millis(5000));\n  assert!(workload"));
}

#[test]
fn default_delay_is_five_seconds() {
    let c = Case::with_delay(None, CaseTest::Bpftrace { script: String::new(), expect_json: String::new() });
    assert_eq!(c.delay_s, 5);
}

#[test]
fn scheduler_config_is_embedded_raw() {
    let mut cfg = suite(&[], vec![]);
    cfg.scheduler = Scheduler::Layered { args: vec![], config: "[{\"name\":\"a\"}]".to_string() };
    let target = generate_target(&[("s".to_string(), cfg)]);
    assert!(target.contains("  let cfg = r#\"[{\"name\":\"a\"}]\"#;\n"));
    assert!(target.contains("std::process::Command::new(\"scx_layered\").args(args)"));
}

#[test]
fn topology_json_is_compact() {
    let t = Topology { sockets: 2, llcs_per_socket: 10, cores_per_llc: 255, threads_per_core: 0 };
    assert_eq!(
        encode_topology(&t),
        "{\"sockets\":2,\"llcs_per_socket\":10,\"cores_per_llc\":255,\"threads_per_core\":0}"
    );
}

#[test]
fn num_cpus_multiplies_three_levels() {
    let t = Topology { sockets: 2, llcs_per_socket: 1, cores_per_llc: 2, threads_per_core: 2 };
    assert_eq!(t.num_cpus(), 4);
    let d = Topology::from_parts(None, None, None, None);
    assert_eq!((d.sockets, d.llcs_per_socket, d.cores_per_llc, d.threads_per_core), (1, 1, 2, 2));
    assert_eq!(d.num_cpus(), 2);
    let e = Topology::from_parts(Some(3), Some(5), None, Some(1));
    assert_eq!(e.num_cpus(), 30);
}

#[test]
fn duplicate_case_names_are_refused() {
    let ok = suite(&[], vec![("a", case(1)), ("b", case(2))]);
    assert!(repeated_name(&ok.cases).is_none());
    let cfg = TestConfig::new(ok.topology, ok.workload.clone(), ok.scheduler.clone(), ok.cases.clone());
    assert_eq!(cfg.unwrap().cases.len(), 2);
    let dup = suite(&[], vec![("a", case(1)), ("b", case(2)), ("a", case(3))]);
    assert_eq!(repeated_name(&dup.cases).as_deref(), Some("a"));
    let r = TestConfig::new(dup.topology, dup.workload, dup.scheduler, dup.cases);
    assert!(matches!(r, Err(SpecError::DuplicateCase(n)) if n == "a"));
}
