use vstd::prelude::*;
use vstd::string::StrSliceExecFns;
use vstd::string::StringExecFns;
use crate::suite::Workload;
use crate::suite::Scheduler;
use crate::suite::Case;
use crate::suite::TestConfig;
use crate::topology::Topology;

verus! {

/// Program that the generated target starts as the scheduler under test.
pub const LAYERED_BINARY: &'static str = "scx_layered";

/// `s` with a backslash put before each double quote. Nothing else is
/// escaped, the backslash itself included.
pub open spec fn escape(s: Seq<char>) -> Seq<char>
    decreases s.len(),
{
    if s.len() == 0 {
        seq![]
    } else {
        escape(s.drop_last()) + (if s.last() == '"' {
            seq!['\\', '"']
        } else {
            seq![s.last()]
        })
    }
}

/// Each string as a quoted literal followed by `, `.
pub open spec fn quoted_items(a: Seq<String>) -> Seq<char>
    decreases a.len(),
{
    if a.len() == 0 {
        seq![]
    } else {
        quoted_items(a.drop_last()) + seq!['"'] + escape(a.last()@) + seq!['"', ',', ' ']
    }
}

/// Source text of a `vec!` of the given strings.
pub open spec fn vec_literal(a: Seq<String>) -> Seq<char> {
    "vec![ "@ + quoted_items(a) + seq![']']
}

/// The decimal digits.
pub open spec fn digits() -> Seq<char> {
    "0123456789"@
}

/// Decimal notation of `n`, without leading zeros.
pub open spec fn decimal(n: nat) -> Seq<char>
    decreases n,
{
    if n < 10 {
        seq![digits()[n as int]]
    } else {
        decimal(n / 10).push(digits()[(n % 10) as int])
    }
}

/// Body of the generated function that starts a workload.
pub open spec fn workload_src(w: Workload) -> Seq<char> {
    match w {
        Workload::StressNg { args } => "  let args: Vec<&str> = "@ + vec_literal(args@) + ";\n"@
            + "  let mut c = std::process::Command::new(\"stress-ng\");\n"@
            + "  c.args(args);\n"@
            + "  Ok(target_common::WorkloadHandle::StressNg(target_common::StressNgWorkload::new(c).expect(\"failed to start stress-ng\")))\n"@,
    }
}

/// Body of the generated function that starts a scheduler.
pub open spec fn scheduler_src(s: Scheduler) -> Seq<char> {
    match s {
        Scheduler::Layered { args, config } => "  use std::io::Write;\n"@
            + "  use std::os::fd::AsRawFd;\n"@
            + "  let args: Vec<&str> = "@ + vec_literal(args@) + ";\n"@
            + "  let cfg = r#\""@ + config@ + "\"#;\n"@
            + "  let mut cfg_file = target_common::tempfile::tempfile()?;\n"@
            + "  cfg_file.write_all(cfg.as_bytes())?;\n"@
            + "  let child = std::process::Command::new(\""@ + LAYERED_BINARY@
            + "\").args(args).arg(format!(\"f:/proc/{}/fd/{}\", unsafe { target_common::libc::getpid() }, cfg_file.as_raw_fd())).spawn()?;\n"@
            + "  std::thread::sleep(std::time::Duration::from_millis(100));\n"@
            + "  Ok(target_common::SchedulerHandle::new(child))\n"@,
    }
}

/// Warmup in milliseconds for a delay in seconds: the delay, but at least 100ms.
pub open spec fn warmup_ms(delay_s: u32) -> nat {
    if delay_s as nat * 1000 >= 100 {
        delay_s as nat * 1000
    } else {
        100
    }
}

/// Identifier of a case across suites: `<suite>_<case>`.
pub open spec fn case_id(suite: Seq<char>, case: Seq<char>) -> Seq<char> {
    suite + seq!['_'] + case
}

/// The two functions that start the workload and the scheduler of a suite.
pub open spec fn setup_src(suite: Seq<char>, cfg: TestConfig) -> Seq<char> {
    "fn run_workload_"@ + suite + "() -> anyhow::Result<target_common::WorkloadHandle> {\n"@
        + workload_src(cfg.workload) + "}\n"@
        + "fn run_scheduler_"@ + suite + "() -> anyhow::Result<target_common::SchedulerHandle> {\n"@
        + scheduler_src(cfg.scheduler) + "}\n"@
}

/// The start functions of every suite, in order.
pub open spec fn setups_src(cfgs: Seq<(String, TestConfig)>) -> Seq<char>
    decreases cfgs.len(),
{
    if cfgs.len() == 0 {
        seq![]
    } else {
        setups_src(cfgs.drop_last()) + setup_src(cfgs.last().0@, cfgs.last().1)
    }
}

/// The function that runs one case inside the guest.
pub open spec fn case_target_src(suite: Seq<char>, case: Seq<char>, delay_s: u32) -> Seq<char> {
    "fn "@ + case_id(suite, case) + "_target() {\n"@
        + "  let mut workload = run_workload_"@ + suite + "().expect(\"failed to start workload\");\n"@
        + "  let mut scheduler = run_scheduler_"@ + suite + "().expect(\"failed to start scheduler\");\n"@
        + "  println!(\"workload & scheduler started, sleeping for "@ + decimal(warmup_ms(delay_s))
        + "ms while they warm up\");\n"@
        + "  std::thread::sleep(std::time::Duration::from_millis("@ + decimal(warmup_ms(delay_s)) + "));\n"@
        + "  assert!(workload.is_alive().unwrap(), \"workload stopped prematurely\");\n"@
        + "  assert!(scheduler.is_alive().unwrap(), \"scheduler stopped prematurely\");\n"@
        + "  workload.cleanup().expect(\"workload failed to clean up\");\n"@
        + "  scheduler.cleanup().expect(\"scheduler failed to clean up\");\n"@
        + "}\n"@
}

/// The case functions of one suite, in order.
pub open spec fn suite_targets_src(suite: Seq<char>, cases: Seq<(String, Case)>) -> Seq<char>
    decreases cases.len(),
{
    if cases.len() == 0 {
        seq![]
    } else {
        suite_targets_src(suite, cases.drop_last()) + case_target_src(suite, cases.last().0@, cases.last().1.delay_s)
    }
}

/// The case functions of every suite, in order.
pub open spec fn targets_src(cfgs: Seq<(String, TestConfig)>) -> Seq<char>
    decreases cfgs.len(),
{
    if cfgs.len() == 0 {
        seq![]
    } else {
        targets_src(cfgs.drop_last()) + suite_targets_src(cfgs.last().0@, cfgs.last().1.cases@)
    }
}

/// The arm of the dispatch `match` that runs the case with identifier `id`.
pub open spec fn dispatch_arm(id: Seq<char>) -> Seq<char> {
    "    \""@ + id + "\" => "@ + id + "_target(),\n"@
}

/// The dispatch arms of one suite, in order.
pub open spec fn suite_arms_src(suite: Seq<char>, cases: Seq<(String, Case)>) -> Seq<char>
    decreases cases.len(),
{
    if cases.len() == 0 {
        seq![]
    } else {
        suite_arms_src(suite, cases.drop_last()) + dispatch_arm(case_id(suite, cases.last().0@))
    }
}

/// The dispatch arms of every suite, in order.
pub open spec fn arms_src(cfgs: Seq<(String, TestConfig)>) -> Seq<char>
    decreases cfgs.len(),
{
    if cfgs.len() == 0 {
        seq![]
    } else {
        arms_src(cfgs.drop_last()) + suite_arms_src(cfgs.last().0@, cfgs.last().1.cases@)
    }
}

/// Opening of the generated target program.
pub open spec fn target_head() -> Seq<char> {
    "use scx_integration_test_framework::target_common;\n\n"@
}

/// Opening of the generated entry point, up to its dispatch arms.
pub open spec fn main_head() -> Seq<char> {
    "fn main() -> anyhow::Result<()> {\n"@
        + "  let arg = std::env::args().nth(1).expect(\"case argument required\");\n"@
        + "  match arg.as_str() {\n"@
}

/// The catch-all dispatch arm and the close of the entry point.
pub open spec fn main_tail() -> Seq<char> {
    "    &_ => anyhow::bail!(\"invalid case name: {}\", arg.as_str()),\n"@ + "  }\n  Ok(())\n}\n"@
}

/// The whole generated target program for the given suites.
pub open spec fn target_src(cfgs: Seq<(String, TestConfig)>) -> Seq<char> {
    target_head() + setups_src(cfgs) + targets_src(cfgs) + "\n"@ + main_head() + arms_src(cfgs) + main_tail()
}

/// Compact JSON text of a topology, fields in declaration order.
pub open spec fn topology_json(t: Topology) -> Seq<char> {
    "{\"sockets\":"@ + decimal(t.sockets as nat) + ",\"llcs_per_socket\":"@ + decimal(t.llcs_per_socket as nat)
        + ",\"cores_per_llc\":"@ + decimal(t.cores_per_llc as nat) + ",\"threads_per_core\":"@
        + decimal(t.threads_per_core as nat) + "}"@
}

/// The statement of a runner test that runs the case with identifier `id`.
pub open spec fn run_call(id: Seq<char>) -> Seq<char> {
    "  let target_status = runner_common::run_target_in_vm(&topo, TARGET_BINARY.into(), \""@ + id
        + "\").unwrap();\n"@
}

/// The host-side test of one case.
pub open spec fn runner_test_src(suite: Seq<char>, topo: Seq<char>, case: Seq<char>) -> Seq<char> {
    "#[test]\n"@ + "fn "@ + case + "() {\n"@
        + "  let _ = env_logger::builder().is_test(true).try_init();\n"@
        + "  let topo = runner_common::decode_topology(r#\""@ + topo + "\"#).unwrap();\n"@
        + run_call(case_id(suite, case))
        + "  assert!(target_status == 0, \"target failed with exit code {:?}\", target_status);\n"@
        + "}\n\n"@
}

/// The host-side tests of a suite's cases, in order.
pub open spec fn runner_tests_src(suite: Seq<char>, topo: Seq<char>, cases: Seq<(String, Case)>) -> Seq<char>
    decreases cases.len(),
{
    if cases.len() == 0 {
        seq![]
    } else {
        runner_tests_src(suite, topo, cases.drop_last()) + runner_test_src(suite, topo, cases.last().0@)
    }
}

/// Opening of a suite's runner module, up to its tests.
pub open spec fn runner_head(suite: Seq<char>) -> Seq<char> {
    "mod "@ + suite + " {"@ + "use scx_integration_test_framework::runner_common;\n\n"@
        + "const TARGET_BINARY: &str = env!(concat!(\"CARGO_BIN_EXE_\", env!(\"CARGO_PKG_NAME\")));\n"@
        + "fn run() -> anyhow::Result<()> {\n"@ + "  todo!(\"run\")\n"@ + "}\n\n"@
}

/// The whole runner module of a suite.
pub open spec fn runner_src(suite: Seq<char>, cfg: TestConfig) -> Seq<char> {
    runner_head(suite) + runner_tests_src(suite, topology_json(cfg.topology), cfg.cases@) + "}\n"@
}

/// `part` occurs somewhere in `text`.
pub open spec fn contains(text: Seq<char>, part: Seq<char>) -> bool {
    exists|k: int| 0 <= k && k + part.len() <= text.len() && #[trigger] text.subrange(k, k + part.len()) == part
}

proof fn lemma_contains_left(a: Seq<char>, b: Seq<char>, part: Seq<char>)
    requires
        contains(a, part),
    ensures
        contains(a + b, part),
{
    let k = choose|k: int| 0 <= k && k + part.len() <= a.len() && #[trigger] a.subrange(k, k + part.len()) == part;
    assert((a + b).subrange(k, k + part.len()) =~= a.subrange(k, k + part.len()));
}

proof fn lemma_contains_right(a: Seq<char>, b: Seq<char>, part: Seq<char>)
    requires
        contains(b, part),
    ensures
        contains(a + b, part),
{
    let k = choose|k: int| 0 <= k && k + part.len() <= b.len() && #[trigger] b.subrange(k, k + part.len()) == part;
    assert((a + b).subrange(a.len() + k, a.len() + k + part.len()) =~= b.subrange(k, k + part.len()));
}

proof fn lemma_contains_self(a: Seq<char>)
    ensures
        contains(a, a),
{
    let k: int = 0;
    assert(a.subrange(k, k + a.len()) =~= a);
}

proof fn lemma_suite_arms_contain(suite: Seq<char>, cases: Seq<(String, Case)>, j: int)
    requires
        0 <= j < cases.len(),
    ensures
        contains(suite_arms_src(suite, cases), dispatch_arm(case_id(suite, cases[j].0@))),
    decreases cases.len(),
{
    let arm = dispatch_arm(case_id(suite, cases[j].0@));
    if j == cases.len() - 1 {
        lemma_contains_self(arm);
        lemma_contains_right(suite_arms_src(suite, cases.drop_last()), arm, arm);
    } else {
        lemma_suite_arms_contain(suite, cases.drop_last(), j);
        lemma_contains_left(suite_arms_src(suite, cases.drop_last()), dispatch_arm(case_id(suite, cases.last().0@)), arm);
    }
}

proof fn lemma_arms_contain(cfgs: Seq<(String, TestConfig)>, i: int, j: int)
    requires
        0 <= i < cfgs.len(),
        0 <= j < cfgs[i].1.cases@.len(),
    ensures
        contains(arms_src(cfgs), dispatch_arm(case_id(cfgs[i].0@, cfgs[i].1.cases@[j].0@))),
    decreases cfgs.len(),
{
    let arm = dispatch_arm(case_id(cfgs[i].0@, cfgs[i].1.cases@[j].0@));
    let last = suite_arms_src(cfgs.last().0@, cfgs.last().1.cases@);
    if i == cfgs.len() - 1 {
        lemma_suite_arms_contain(cfgs[i].0@, cfgs[i].1.cases@, j);
        lemma_contains_right(arms_src(cfgs.drop_last()), last, arm);
    } else {
        lemma_arms_contain(cfgs.drop_last(), i, j);
        lemma_contains_left(arms_src(cfgs.drop_last()), last, arm);
    }
}

proof fn lemma_runner_tests_contain(suite: Seq<char>, topo: Seq<char>, cases: Seq<(String, Case)>, j: int)
    requires
        0 <= j < cases.len(),
    ensures
        contains(runner_tests_src(suite, topo, cases), run_call(case_id(suite, cases[j].0@))),
    decreases cases.len(),
{
    let call = run_call(case_id(suite, cases[j].0@));
    let last = runner_test_src(suite, topo, cases.last().0@);
    if j == cases.len() - 1 {
        let before = "#[test]\n"@ + "fn "@ + cases[j].0@ + "() {\n"@
            + "  let _ = env_logger::builder().is_test(true).try_init();\n"@
            + "  let topo = runner_common::decode_topology(r#\""@ + topo + "\"#).unwrap();\n"@;
        let after = "  assert!(target_status == 0, \"target failed with exit code {:?}\", target_status);\n"@
            + "}\n\n"@;
        assert(last =~= before + call + after);
        lemma_contains_self(call);
        lemma_contains_right(before, call, call);
        lemma_contains_left(before + call, after, call);
        lemma_contains_right(runner_tests_src(suite, topo, cases.drop_last()), last, call);
    } else {
        lemma_runner_tests_contain(suite, topo, cases.drop_last(), j);
        lemma_contains_left(runner_tests_src(suite, topo, cases.drop_last()), last, call);
    }
}

/// The identifier of a case, `<suite>_<case>`, is both what the target's
/// dispatch matches to run it and what the suite's runner test hands the
/// virtual machine to run it.
pub proof fn lemma_case_id_agrees(cfgs: Seq<(String, TestConfig)>, i: int, j: int)
    requires
        0 <= i < cfgs.len(),
        0 <= j < cfgs[i].1.cases@.len(),
    ensures
        contains(target_src(cfgs), dispatch_arm(case_id(cfgs[i].0@, cfgs[i].1.cases@[j].0@))),
        contains(runner_src(cfgs[i].0@, cfgs[i].1), run_call(case_id(cfgs[i].0@, cfgs[i].1.cases@[j].0@))),
{
    let id = case_id(cfgs[i].0@, cfgs[i].1.cases@[j].0@);
    lemma_arms_contain(cfgs, i, j);
    let before = target_head() + setups_src(cfgs) + targets_src(cfgs) + "\n"@ + main_head();
    lemma_contains_right(before, arms_src(cfgs), dispatch_arm(id));
    lemma_contains_left(before + arms_src(cfgs), main_tail(), dispatch_arm(id));
    let cfg = cfgs[i].1;
    let suite = cfgs[i].0@;
    let tests = runner_tests_src(suite, topology_json(cfg.topology), cfg.cases@);
    lemma_runner_tests_contain(suite, topology_json(cfg.topology), cfg.cases@, j);
    lemma_contains_right(runner_head(suite), tests, run_call(id));
    lemma_contains_left(runner_head(suite) + tests, "}\n"@, run_call(id));
}

proof fn lemma_no_cases_no_text(cfgs: Seq<(String, TestConfig)>)
    requires
        forall|i: int| 0 <= i < cfgs.len() ==> (#[trigger] cfgs[i]).1.cases@.len() == 0,
    ensures
        arms_src(cfgs) == Seq::<char>::empty(),
        targets_src(cfgs) == Seq::<char>::empty(),
    decreases cfgs.len(),
{
    if cfgs.len() > 0 {
        assert(cfgs.last() == cfgs[cfgs.len() - 1]);
        assert forall|i: int| 0 <= i < cfgs.drop_last().len() implies (#[trigger] cfgs.drop_last()[i]).1.cases@.len() == 0 by {
            assert(cfgs.drop_last()[i] == cfgs[i]);
        }
        lemma_no_cases_no_text(cfgs.drop_last());
        assert(arms_src(cfgs) =~= Seq::<char>::empty());
        assert(targets_src(cfgs) =~= Seq::<char>::empty());
    }
}

/// Where no suite has a case, the target program has no case function and
/// its dispatch holds the catch-all arm alone.
pub proof fn lemma_no_cases_only_catch_all(cfgs: Seq<(String, TestConfig)>)
    requires
        forall|i: int| 0 <= i < cfgs.len() ==> (#[trigger] cfgs[i]).1.cases@.len() == 0,
    ensures
        target_src(cfgs) == target_head() + setups_src(cfgs) + "\n"@ + main_head() + main_tail(),
{
    lemma_no_cases_no_text(cfgs);
    assert(target_src(cfgs) =~= target_head() + setups_src(cfgs) + "\n"@ + main_head() + main_tail());
}

proof fn lemma_runner_tests_concat(suite: Seq<char>, topo: Seq<char>, a: Seq<(String, Case)>, b: Seq<(String, Case)>)
    ensures
        runner_tests_src(suite, topo, a + b) == runner_tests_src(suite, topo, a) + runner_tests_src(suite, topo, b),
    decreases b.len(),
{
    if b.len() == 0 {
        assert(a + b =~= a);
        assert(runner_tests_src(suite, topo, a) + runner_tests_src(suite, topo, b) =~= runner_tests_src(suite, topo, a));
    } else {
        assert((a + b).drop_last() =~= a + b.drop_last());
        assert((a + b).last() == b.last());
        lemma_runner_tests_concat(suite, topo, a, b.drop_last());
        assert(runner_tests_src(suite, topo, a + b) =~= runner_tests_src(suite, topo, a) + runner_tests_src(suite, topo, b));
    }
}

/// The tests of a runner module are one test per case, in the order of the
/// cases, each named as its case: the tests of the cases before case `j`,
/// then the test named as case `j`, then the tests of the cases after it.
pub proof fn lemma_one_test_per_case(suite: Seq<char>, cfg: TestConfig, j: int)
    requires
        0 <= j < cfg.cases@.len(),
    ensures
        ({
            let topo = topology_json(cfg.topology);
            let cases = cfg.cases@;
            runner_src(suite, cfg) == runner_head(suite) + runner_tests_src(suite, topo, cases.take(j))
                + runner_test_src(suite, topo, cases[j].0@) + runner_tests_src(suite, topo, cases.skip(j + 1))
                + "}\n"@
        }),
        runner_test_src(suite, topology_json(cfg.topology), cfg.cases@[j].0@).take(11 + cfg.cases@[j].0@.len() as int)
            == "#[test]\n"@ + "fn "@ + cfg.cases@[j].0@,
{
    let topo = topology_json(cfg.topology);
    let cases = cfg.cases@;
    assert(cases =~= cases.take(j) + seq![cases[j]] + cases.skip(j + 1));
    lemma_runner_tests_concat(suite, topo, cases.take(j) + seq![cases[j]], cases.skip(j + 1));
    lemma_runner_tests_concat(suite, topo, cases.take(j), seq![cases[j]]);
    assert(seq![cases[j]].drop_last() =~= Seq::<(String, Case)>::empty());
    assert(seq![cases[j]].last() == cases[j]);
    assert(runner_tests_src(suite, topo, Seq::<(String, Case)>::empty()) == Seq::<char>::empty());
    assert(runner_tests_src(suite, topo, seq![cases[j]]) =~= runner_test_src(suite, topo, cases[j].0@));
    assert(runner_src(suite, cfg) =~= runner_head(suite) + runner_tests_src(suite, topo, cases.take(j))
        + runner_test_src(suite, topo, cases[j].0@) + runner_tests_src(suite, topo, cases.skip(j + 1)) + "}\n"@);
    reveal_strlit("#[test]\n");
    reveal_strlit("fn ");
    assert(runner_test_src(suite, topo, cases[j].0@).take(11 + cases[j].0@.len() as int) =~= "#[test]\n"@ + "fn "@ + cases[j].0@);
}

/// A case with no delay still warms up for 100ms: its sleep is written as
/// `100` milliseconds, not `0`.
pub proof fn lemma_zero_delay_floor()
    ensures
        warmup_ms(0) == 100,
        decimal(warmup_ms(0)) == "100"@,
{
    reveal_strlit("0123456789");
    reveal_strlit("100");
    assert(decimal(1) =~= seq!['1']);
    assert(decimal(10) =~= seq!['1', '0']);
    assert(decimal(100) =~= "100"@);
}

/// Appends `s` with each double quote escaped.
fn push_escaped(out: &mut String, s: &str)
    ensures
        final(out)@ == old(out)@ + escape(s@),
{
    let n = s.unicode_len();
    let mut i: usize = 0;
    while i < n
        invariant
            i <= n,
            n == s@.len(),
            out@ == old(out)@ + escape(s@.subrange(0, i as int)),
        decreases n - i,
    {
        let c = s.get_char(i);
        proof {
            reveal_strlit("\\");
        }
        if c == '"' {
            out.append("\\");
        }
        out.append(s.substring_char(i, i + 1));
        assert(s@.subrange(0, i + 1).drop_last() =~= s@.subrange(0, i as int));
        assert(out@ =~= old(out)@ + escape(s@.subrange(0, i + 1)));
        i += 1;
    }
    assert(s@.subrange(0, n as int) =~= s@);
}

/// Appends the source text of a `vec!` of the given strings.
fn push_vec_literal(out: &mut String, strings: &Vec<String>)
    ensures
        final(out)@ == old(out)@ + vec_literal(strings@),
{
    out.append("vec![ ");
    let ghost start = out@;
    let mut i: usize = 0;
    while i < strings.len()
        invariant
            i <= strings.len(),
            start == old(out)@ + "vec![ "@,
            out@ == start + quoted_items(strings@.take(i as int)),
        decreases strings.len() - i,
    {
        proof {
            reveal_strlit("\"");
            reveal_strlit("\", ");
        }
        out.append("\"");
        push_escaped(out, strings[i].as_str());
        out.append("\", ");
        assert(strings@.take(i + 1).drop_last() =~= strings@.take(i as int));
        assert(strings@.take(i + 1).last() == strings@[i as int]);
        assert(out@ =~= start + quoted_items(strings@.take(i + 1)));
        i += 1;
    }
    proof {
        reveal_strlit("]");
    }
    out.append("]");
    assert(strings@.take(strings.len() as int) =~= strings@);
    assert(out@ =~= old(out)@ + vec_literal(strings@));
}

/// Appends the decimal notation of `n`.
fn push_decimal(out: &mut String, n: u64)
    ensures
        final(out)@ == old(out)@ + decimal(n as nat),
    decreases n,
{
    if n >= 10 {
        push_decimal(out, n / 10);
    }
    let d: usize = (n % 10) as usize;
    proof {
        reveal_strlit("0123456789");
    }
    out.append("0123456789".substring_char(d, d + 1));
    assert("0123456789"@.subrange(d as int, d + 1) =~= seq![digits()[d as int]]);
    assert(out@ =~= old(out)@ + decimal(n as nat));
}

/// Appends the body of the function that starts `workload`.
fn push_workload(out: &mut String, workload: &Workload)
    ensures
        final(out)@ == old(out)@ + workload_src(*workload),
{
    match workload {
        Workload::StressNg { args } => {
            out.append("  let args: Vec<&str> = ");
            push_vec_literal(out, args);
            out.append(";\n");
            out.append("  let mut c = std::process::Command::new(\"stress-ng\");\n");
            out.append("  c.args(args);\n");
            out.append("  Ok(target_common::WorkloadHandle::StressNg(target_common::StressNgWorkload::new(c).expect(\"failed to start stress-ng\")))\n");
            assert(out@ =~= old(out)@ + workload_src(*workload));
        },
    }
}

/// Appends the body of the function that starts `scheduler`.
fn push_scheduler(out: &mut String, scheduler: &Scheduler)
    ensures
        final(out)@ == old(out)@ + scheduler_src(*scheduler),
{
    match scheduler {
        Scheduler::Layered { args, config } => {
            out.append("  use std::io::Write;\n");
            out.append("  use std::os::fd::AsRawFd;\n");
            out.append("  let args: Vec<&str> = ");
            push_vec_literal(out, args);
            out.append(";\n");
            out.append("  let cfg = r#\"");
            out.append(config.as_str());
            out.append("\"#;\n");
            out.append("  let mut cfg_file = target_common::tempfile::tempfile()?;\n");
            out.append("  cfg_file.write_all(cfg.as_bytes())?;\n");
            out.append("  let child = std::process::Command::new(\"");
            out.append(LAYERED_BINARY);
            out.append("\").args(args).arg(format!(\"f:/proc/{}/fd/{}\", unsafe { target_common::libc::getpid() }, cfg_file.as_raw_fd())).spawn()?;\n");
            out.append("  std::thread::sleep(std::time::Duration::from_millis(100));\n");
            out.append("  Ok(target_common::SchedulerHandle::new(child))\n");
            assert(out@ =~= old(out)@ + scheduler_src(*scheduler));
        },
    }
}

/// Warmup in milliseconds for a delay given in seconds: the delay, but never
/// less than 100ms.
pub fn warmup_millis(delay_s: u32) -> (ms: u64)
    ensures
        ms == warmup_ms(delay_s),
{
    let ms: u64 = delay_s as u64 * 1000;
    if ms >= 100 {
        ms
    } else {
        100
    }
}

/// Compact JSON text of a topology, as the generated runner embeds it.
pub fn encode_topology(t: &Topology) -> (r: String)
    ensures
        r@ == topology_json(*t),
{
    let mut out = String::new();
    out.append("{\"sockets\":");
    push_decimal(&mut out, t.sockets as u64);
    out.append(",\"llcs_per_socket\":");
    push_decimal(&mut out, t.llcs_per_socket as u64);
    out.append(",\"cores_per_llc\":");
    push_decimal(&mut out, t.cores_per_llc as u64);
    out.append(",\"threads_per_core\":");
    push_decimal(&mut out, t.threads_per_core as u64);
    out.append("}");
    assert(out@ =~= topology_json(*t));
    out
}

fn push_case_id(out: &mut String, suite: &str, case: &str)
    ensures
        final(out)@ == old(out)@ + case_id(suite@, case@),
{
    out.append(suite);
    proof {
        reveal_strlit("_");
    }
    out.append("_");
    out.append(case);
    assert(out@ =~= old(out)@ + case_id(suite@, case@));
}

fn push_setup(out: &mut String, suite: &str, cfg: &TestConfig)
    ensures
        final(out)@ == old(out)@ + setup_src(suite@, *cfg),
{
    out.append("fn run_workload_");
    out.append(suite);
    out.append("() -> anyhow::Result<target_common::WorkloadHandle> {\n");
    push_workload(out, &cfg.workload);
    out.append("}\n");
    out.append("fn run_scheduler_");
    out.append(suite);
    out.append("() -> anyhow::Result<target_common::SchedulerHandle> {\n");
    push_scheduler(out, &cfg.scheduler);
    out.append("}\n");
    assert(out@ =~= old(out)@ + setup_src(suite@, *cfg));
}

fn push_case_target(out: &mut String, suite: &str, case: &str, delay_s: u32)
    ensures
        final(out)@ == old(out)@ + case_target_src(suite@, case@, delay_s),
{
    let ms = warmup_millis(delay_s);
    out.append("fn ");
    push_case_id(out, suite, case);
    out.append("_target() {\n");
    out.append("  let mut workload = run_workload_");
    out.append(suite);
    out.append("().expect(\"failed to start workload\");\n");
    out.append("  let mut scheduler = run_scheduler_");
    out.append(suite);
    out.append("().expect(\"failed to start scheduler\");\n");
    out.append("  println!(\"workload & scheduler started, sleeping for ");
    push_decimal(out, ms);
    out.append("ms while they warm up\");\n");
    out.append("  std::thread::sleep(std::time::Duration::from_millis(");
    push_decimal(out, ms);
    out.append("));\n");
    out.append("  assert!(workload.is_alive().unwrap(), \"workload stopped prematurely\");\n");
    out.append("  assert!(scheduler.is_alive().unwrap(), \"scheduler stopped prematurely\");\n");
    out.append("  workload.cleanup().expect(\"workload failed to clean up\");\n");
    out.append("  scheduler.cleanup().expect(\"scheduler failed to clean up\");\n");
    out.append("}\n");
    assert(out@ =~= old(out)@ + case_target_src(suite@, case@, delay_s));
}

fn push_suite_targets(out: &mut String, suite: &str, cases: &Vec<(String, Case)>)
    ensures
        final(out)@ == old(out)@ + suite_targets_src(suite@, cases@),
{
    let mut i: usize = 0;
    while i < cases.len()
        invariant
            i <= cases.len(),
            out@ == old(out)@ + suite_targets_src(suite@, cases@.take(i as int)),
        decreases cases.len() - i,
    {
        push_case_target(out, suite, cases[i].0.as_str(), cases[i].1.delay_s);
        assert(cases@.take(i + 1).drop_last() =~= cases@.take(i as int));
        assert(cases@.take(i + 1).last() == cases@[i as int]);
        assert(out@ =~= old(out)@ + suite_targets_src(suite@, cases@.take(i + 1)));
        i += 1;
    }
    assert(cases@.take(cases.len() as int) =~= cases@);
}

fn push_dispatch_arm(out: &mut String, suite: &str, case: &str)
    ensures
        final(out)@ == old(out)@ + dispatch_arm(case_id(suite@, case@)),
{
    out.append("    \"");
    push_case_id(out, suite, case);
    out.append("\" => ");
    push_case_id(out, suite, case);
    out.append("_target(),\n");
    assert(out@ =~= old(out)@ + dispatch_arm(case_id(suite@, case@)));
}

fn push_suite_arms(out: &mut String, suite: &str, cases: &Vec<(String, Case)>)
    ensures
        final(out)@ == old(out)@ + suite_arms_src(suite@, cases@),
{
    let mut i: usize = 0;
    while i < cases.len()
        invariant
            i <= cases.len(),
            out@ == old(out)@ + suite_arms_src(suite@, cases@.take(i as int)),
        decreases cases.len() - i,
    {
        push_dispatch_arm(out, suite, cases[i].0.as_str());
        assert(cases@.take(i + 1).drop_last() =~= cases@.take(i as int));
        assert(cases@.take(i + 1).last() == cases@[i as int]);
        assert(out@ =~= old(out)@ + suite_arms_src(suite@, cases@.take(i + 1)));
        i += 1;
    }
    assert(cases@.take(cases.len() as int) =~= cases@);
}

/// Source of the guest-side target program for the given named suites: the
/// start functions of each suite, one function per case, and an entry point
/// that runs the case named by its argument.
pub fn generate_target(cfgs: &[(String, TestConfig)]) -> (r: String)
    ensures
        r@ == target_src(cfgs@),
{
    let mut out = String::new();
    out.append("use scx_integration_test_framework::target_common;\n\n");
    let ghost head = out@;
    let mut i: usize = 0;
    while i < cfgs.len()
        invariant
            i <= cfgs.len(),
            out@ == head + setups_src(cfgs@.take(i as int)),
        decreases cfgs.len() - i,
    {
        push_setup(&mut out, cfgs[i].0.as_str(), &cfgs[i].1);
        assert(cfgs@.take(i + 1).drop_last() =~= cfgs@.take(i as int));
        assert(cfgs@.take(i + 1).last() == cfgs@[i as int]);
        assert(out@ =~= head + setups_src(cfgs@.take(i + 1)));
        i += 1;
    }
    assert(cfgs@.take(cfgs.len() as int) =~= cfgs@);
    let ghost with_setups = out@;
    let mut i: usize = 0;
    while i < cfgs.len()
        invariant
            i <= cfgs.len(),
            out@ == with_setups + targets_src(cfgs@.take(i as int)),
        decreases cfgs.len() - i,
    {
        push_suite_targets(&mut out, cfgs[i].0.as_str(), &cfgs[i].1.cases);
        assert(cfgs@.take(i + 1).drop_last() =~= cfgs@.take(i as int));
        assert(cfgs@.take(i + 1).last() == cfgs@[i as int]);
        assert(out@ =~= with_setups + targets_src(cfgs@.take(i + 1)));
        i += 1;
    }
    assert(cfgs@.take(cfgs.len() as int) =~= cfgs@);
    out.append("\n");
    out.append("fn main() -> anyhow::Result<()> {\n");
    out.append("  let arg = std::env::args().nth(1).expect(\"case argument required\");\n");
    out.append("  match arg.as_str() {\n");
    let ghost with_head = out@;
    let mut i: usize = 0;
    while i < cfgs.len()
        invariant
            i <= cfgs.len(),
            out@ == with_head + arms_src(cfgs@.take(i as int)),
        decreases cfgs.len() - i,
    {
        push_suite_arms(&mut out, cfgs[i].0.as_str(), &cfgs[i].1.cases);
        assert(cfgs@.take(i + 1).drop_last() =~= cfgs@.take(i as int));
        assert(cfgs@.take(i + 1).last() == cfgs@[i as int]);
        assert(out@ =~= with_head + arms_src(cfgs@.take(i + 1)));
        i += 1;
    }
    assert(cfgs@.take(cfgs.len() as int) =~= cfgs@);
    out.append("    &_ => anyhow::bail!(\"invalid case name: {}\", arg.as_str()),\n");
    out.append("  }\n  Ok(())\n}\n");
    assert(out@ =~= target_src(cfgs@));
    out
}

fn push_runner_test(out: &mut String, suite: &str, topo: &str, case: &str)
    ensures
        final(out)@ == old(out)@ + runner_test_src(suite@, topo@, case@),
{
    out.append("#[test]\n");
    out.append("fn ");
    out.append(case);
    out.append("() {\n");
    out.append("  let _ = env_logger::builder().is_test(true).try_init();\n");
    out.append("  let topo = runner_common::decode_topology(r#\"");
    out.append(topo);
    out.append("\"#).unwrap();\n");
    let ghost before_call = out@;
    out.append("  let target_status = runner_common::run_target_in_vm(&topo, TARGET_BINARY.into(), \"");
    push_case_id(out, suite, case);
    out.append("\").unwrap();\n");
    assert(out@ =~= before_call + run_call(case_id(suite@, case@)));
    out.append("  assert!(target_status == 0, \"target failed with exit code {:?}\", target_status);\n");
    out.append("}\n\n");
    assert(out@ =~= old(out)@ + runner_test_src(suite@, topo@, case@));
}

/// Source of the host-side runner module of one suite: one test per case,
/// named as the case, that runs the target in a virtual machine with the
/// case's identifier and asserts that it exited with code 0.
pub fn generate_runner(suite_name: &str, cfg: &TestConfig) -> (r: String)
    ensures
        r@ == runner_src(suite_name@, *cfg),
{
    let mut out = String::new();
    out.append("mod ");
    out.append(suite_name);
    out.append(" {");
    out.append("use scx_integration_test_framework::runner_common;\n\n");
    out.append("const TARGET_BINARY: &str = env!(concat!(\"CARGO_BIN_EXE_\", env!(\"CARGO_PKG_NAME\")));\n");
    out.append("fn run() -> anyhow::Result<()> {\n");
    out.append("  todo!(\"run\")\n");
    out.append("}\n\n");
    assert(out@ =~= runner_head(suite_name@));
    let topo = encode_topology(&cfg.topology);
    let cases = &cfg.cases;
    let mut i: usize = 0;
    while i < cases.len()
        invariant
            i <= cases.len(),
            cases@ == cfg.cases@,
            topo@ == topology_json(cfg.topology),
            out@ == runner_head(suite_name@) + runner_tests_src(suite_name@, topo@, cases@.take(i as int)),
        decreases cases.len() - i,
    {
        push_runner_test(&mut out, suite_name, topo.as_str(), cases[i].0.as_str());
        assert(cases@.take(i + 1).drop_last() =~= cases@.take(i as int));
        assert(cases@.take(i + 1).last() == cases@[i as int]);
        assert(out@ =~= runner_head(suite_name@) + runner_tests_src(suite_name@, topo@, cases@.take(i + 1)));
        i += 1;
    }
    assert(cases@.take(cases.len() as int) =~= cases@);
    out.append("}\n");
    assert(out@ =~= runner_src(suite_name@, *cfg));
    out
}

} // verus!
