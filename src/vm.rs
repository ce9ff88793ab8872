use vstd::prelude::*;
use vstd::string::StringExecFns;

verus! {

/// One message of the virtual machine's event stream. The stream runs through
/// the boot, setup and command phases in that order; each phase opens with a
/// start event, may report progress, and closes with one end event.
#[derive(Debug)]
pub enum VmEvent {
    BootStart,
    Boot(String),
    BootEnd(Result<(), String>),
    SetupStart,
    Setup(String),
    SetupEnd(Result<(), String>),
    CommandStart,
    Command(String),
    /// The guest command ended: its exit code, or why it could not be run.
    CommandEnd(Result<i64, String>),
}

/// Why no exit code came back from the virtual machine.
#[derive(Clone, Debug)]
pub enum VmError {
    /// The machine failed to boot.
    Boot(String),
    /// The machine failed to set up.
    Setup(String),
    /// The guest command could not be run.
    Command(String),
    /// The stream ended before the command ended, which breaks the protocol.
    ChannelClosed,
}

/// What an event decides: `None` while the run goes on, else its outcome.
pub open spec fn spec_verdict(ev: VmEvent) -> Option<Result<i64, VmError>> {
    match ev {
        VmEvent::BootEnd(Err(e)) => Some(Err(VmError::Boot(e))),
        VmEvent::SetupEnd(Err(e)) => Some(Err(VmError::Setup(e))),
        VmEvent::CommandEnd(Ok(code)) => Some(Ok(code)),
        VmEvent::CommandEnd(Err(e)) => Some(Err(VmError::Command(e))),
        _ => None,
    }
}

/// Outcome of a whole stream: that of its first deciding event, or
/// `ChannelClosed` where none decides.
pub open spec fn spec_outcome(evs: Seq<VmEvent>) -> Result<i64, VmError>
    decreases evs.len(),
{
    if evs.len() == 0 {
        Err(VmError::ChannelClosed)
    } else {
        match spec_verdict(evs[0]) {
            Some(r) => r,
            None => spec_outcome(evs.skip(1)),
        }
    }
}

proof fn lemma_undecided_prefix(pre: Seq<VmEvent>, rest: Seq<VmEvent>)
    requires
        forall|i: int| 0 <= i < pre.len() ==> spec_verdict(#[trigger] pre[i]) is None,
    ensures
        spec_outcome(pre + rest) == spec_outcome(rest),
    decreases pre.len(),
{
    if pre.len() > 0 {
        assert((pre + rest)[0] == pre[0]);
        assert((pre + rest).skip(1) =~= pre.skip(1) + rest);
        assert forall|i: int| 0 <= i < pre.skip(1).len() implies spec_verdict(#[trigger] pre.skip(1)[i]) is None by {
            assert(pre.skip(1)[i] == pre[i + 1]);
        }
        lemma_undecided_prefix(pre.skip(1), rest);
    }
}

/// After events that decide nothing, the first deciding event fixes the
/// outcome, whatever follows it: the end of a command with code 0 gives 0,
/// and a failed boot gives a boot error, with no later phase read.
pub proof fn lemma_first_decision_wins(pre: Seq<VmEvent>, ev: VmEvent, rest: Seq<VmEvent>)
    requires
        forall|i: int| 0 <= i < pre.len() ==> spec_verdict(#[trigger] pre[i]) is None,
        spec_verdict(ev) is Some,
    ensures
        Some(spec_outcome(pre + seq![ev] + rest)) == spec_verdict(ev),
        ev == VmEvent::CommandEnd(Ok(0i64)) ==> spec_outcome(pre + seq![ev] + rest) == Ok::<i64, VmError>(0),
        ev matches VmEvent::BootEnd(Err(e)) ==> spec_outcome(pre + seq![ev] + rest) == Err::<i64, VmError>(VmError::Boot(e)),
{
    assert(pre + seq![ev] + rest =~= pre + (seq![ev] + rest));
    lemma_undecided_prefix(pre, seq![ev] + rest);
    assert((seq![ev] + rest)[0] == ev);
}

/// Reads one event: a failed boot or setup ends the run with an error, the
/// end of the command ends it with the guest's exit code, whatever its value;
/// every other event lets the run go on.
pub fn verdict(ev: &VmEvent) -> (r: Option<Result<i64, VmError>>)
    ensures
        r == spec_verdict(*ev),
{
    match ev {
        VmEvent::BootEnd(Err(e)) => Some(Err(VmError::Boot(e.clone()))),
        VmEvent::SetupEnd(Err(e)) => Some(Err(VmError::Setup(e.clone()))),
        VmEvent::CommandEnd(Ok(code)) => Some(Ok(*code)),
        VmEvent::CommandEnd(Err(e)) => Some(Err(VmError::Command(e.clone()))),
        _ => None,
    }
}

/// Reads a stream of events in order and stops at the first that decides.
pub fn run_events(events: &[VmEvent]) -> (r: Result<i64, VmError>)
    ensures
        r == spec_outcome(events@),
{
    let mut i: usize = 0;
    assert(events@.skip(0) =~= events@);
    while i < events.len()
        invariant
            i <= events.len(),
            spec_outcome(events@.skip(i as int)) == spec_outcome(events@),
        decreases events.len() - i,
    {
        let v = verdict(&events[i]);
        assert(events@.skip(i as int)[0] == events@[i as int]);
        assert(events@.skip(i as int).skip(1) =~= events@.skip(i + 1));
        match v {
            Some(r) => {
                return r;
            },
            None => {},
        }
        i += 1;
    }
    assert(events@.skip(i as int).len() == 0);
    Err(VmError::ChannelClosed)
}

/// The command the guest runs: the target binary and the case identifier,
/// separated by one space.
pub fn guest_command(target_binary: &str, case_id: &str) -> (r: String)
    ensures
        r@ == target_binary@ + seq![' '] + case_id@,
{
    let mut out = String::from_str(target_binary);
    proof {
        reveal_strlit(" ");
    }
    out.append(" ");
    out.append(case_id);
    assert(out@ =~= target_binary@ + seq![' '] + case_id@);
    out
}

} // verus!
