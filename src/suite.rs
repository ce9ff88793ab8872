use vstd::prelude::*;
use crate::topology::Topology;

verus! {

/// The load that runs beside the scheduler under test.
#[derive(Clone, Debug)]
pub enum Workload {
    /// `stress-ng` with the given arguments, in order.
    StressNg { args: Vec<String> },
}

/// The scheduler under test.
#[derive(Clone, Debug)]
pub enum Scheduler {
    /// `scx_layered` with the given arguments; `config` is its layer
    /// configuration in compact JSON text, handed to it at run time.
    Layered { args: Vec<String>, config: String },
}

/// What a case checks once the system has warmed up.
#[derive(Clone, Debug)]
pub enum CaseTest {
    Bpftrace { script: String, expect_json: String },
}

/// Warmup delay, in seconds, of a case that gives none.
pub const DEFAULT_DELAY_S: u32 = 5;

/// One named scenario of a suite.
#[derive(Clone, Debug)]
pub struct Case {
    /// Seconds to wait after starting the scheduler and workload.
    pub delay_s: u32,
    pub test: CaseTest,
}

impl Case {
    /// A case with the given delay, or the default delay where none is given.
    pub fn with_delay(delay_s: Option<u32>, test: CaseTest) -> (c: Case)
        ensures
            c.delay_s == (match delay_s {
                Some(d) => d,
                None => DEFAULT_DELAY_S,
            }),
            c.test == test,
    {
        let delay_s = match delay_s {
            Some(d) => d,
            None => DEFAULT_DELAY_S,
        };
        Case { delay_s, test }
    }
}

/// One suite: the machine, the load and the scheduler that its cases share,
/// and the cases by name.
#[derive(Clone, Debug)]
pub struct TestConfig {
    pub topology: Topology,
    pub workload: Workload,
    pub scheduler: Scheduler,
    pub cases: Vec<(String, Case)>,
}

/// No two entries have the same name.
pub open spec fn names_unique(cases: Seq<(String, Case)>) -> bool {
    forall|i: int, j: int|
        0 <= i < j < cases.len() ==> #[trigger] cases[i].0@ != #[trigger] cases[j].0@
}

/// Why a suite was refused.
#[derive(Clone, Debug)]
pub enum SpecError {
    /// Two cases have this name.
    DuplicateCase(String),
}

/// A name that two entries share, `None` where names are unique.
pub fn repeated_name(cases: &Vec<(String, Case)>) -> (r: Option<String>)
    ensures
        r is None <==> names_unique(cases@),
        r matches Some(n) ==> exists|i: int, j: int|
            0 <= i < j < cases@.len() && cases@[i].0@ == n@ && cases@[j].0@ == n@,
{
    let mut j: usize = 0;
    while j < cases.len()
        invariant
            j <= cases.len(),
            names_unique(cases@.take(j as int)),
        decreases cases.len() - j,
    {
        let mut i: usize = 0;
        while i < j
            invariant
                i <= j < cases.len(),
                forall|k: int| 0 <= k < i ==> cases@[k].0@ != cases@[j as int].0@,
            decreases j - i,
        {
            if cases[i].0 == cases[j].0 {
                assert(!names_unique(cases@)) by {
                    assert(cases@[i as int].0@ == cases@[j as int].0@);
                }
                return Some(cases[j].0.clone());
            }
            i += 1;
        }
        assert forall|a: int, b: int| 0 <= a < b < j + 1 implies #[trigger] cases@.take(j + 1)[a].0@
            != #[trigger] cases@.take(j + 1)[b].0@ by {
            assert(cases@.take(j + 1)[a] == cases@[a]);
            assert(cases@.take(j + 1)[b] == cases@[b]);
            if b < j {
                assert(cases@.take(j as int)[a] == cases@[a]);
                assert(cases@.take(j as int)[b] == cases@[b]);
            }
        }
        j += 1;
    }
    assert(cases@.take(cases.len() as int) =~= cases@);
    None
}

impl TestConfig {
    /// Case names are unique within the suite.
    pub open spec fn wf(&self) -> bool {
        names_unique(self.cases@)
    }

    /// A suite from its parts; refused where two cases share a name.
    pub fn new(topology: Topology, workload: Workload, scheduler: Scheduler, cases: Vec<(String, Case)>) -> (r: Result<
        TestConfig,
        SpecError,
    >)
        ensures
            r is Ok <==> names_unique(cases@),
            r matches Err(SpecError::DuplicateCase(n)) ==> exists|i: int, j: int|
                0 <= i < j < cases@.len() && cases@[i].0@ == n@ && cases@[j].0@ == n@,
            r matches Ok(c) ==> c.wf() && c.topology == topology && c.workload == workload
                && c.scheduler == scheduler && c.cases == cases,
    {
        match repeated_name(&cases) {
            Some(name) => Err(SpecError::DuplicateCase(name)),
            None => Ok(TestConfig { topology, workload, scheduler, cases }),
        }
    }
}

} // verus!
