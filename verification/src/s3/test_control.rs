use vstd::prelude::*;

verus! {

/// The exact adapter stage held pending by a test.
#[derive(Clone, Copy, Debug, PartialEq, Eq, Structural)]
pub enum TestStage {
    /// Opening the writer.
    Open,
    /// Writing payload bytes.
    Write,
    /// Flushing buffered bytes.
    Flush,
    /// Immediately before the SDK PUT is dispatched.
    BeforePut,
    /// After the SDK PUT completed, before its result is delivered.
    AfterPutBeforeResult,
    /// Discarding the write session.
    Abort,
}

/// The outcome of arriving at a stage.
#[derive(Clone, Copy, Debug, PartialEq, Eq, Structural)]
pub enum GatePoll {
    /// The stage is not armed: the operation continues.
    Ready,
    /// The stage is armed: the operation waits until released, and the
    /// observer waiting for arrival is woken.
    Parked,
}

/// The decisions of a shared test gate and its counters, without the
/// wakers and locks that the adapter keeps around it.
///
/// The default state arms no stage and lets every stage proceed at once.
pub struct ControlState {
    stage: Option<TestStage>,
    reached: bool,
    puts: usize,
    accepted: usize,
    aborts: usize,
    fail_abort: bool,
}

/// The observable fields of a control state.
pub struct ControlView {
    /// The armed stage, when there is one.
    pub stage: Option<TestStage>,
    /// Whether the armed stage has been reached.
    pub reached: bool,
    /// SDK PUT dispatches recorded.
    pub puts: usize,
    /// Bytes accepted since the current gate was armed.
    pub accepted: usize,
    /// Abort attempts recorded.
    pub aborts: usize,
    /// Whether the next abort fails once.
    pub fail_abort: bool,
}

/// Adds one to a counter as an atomic `fetch_add` does, wrapping on
/// overflow.
pub open spec fn bumped(count: usize, by: usize) -> usize {
    if count + by <= usize::MAX {
        (count + by) as usize
    } else {
        (count + by - usize::MAX - 1) as usize
    }
}

impl View for ControlState {
    type V = ControlView;

    closed spec fn view(&self) -> ControlView {
        ControlView {
            stage: self.stage,
            reached: self.reached,
            puts: self.puts,
            accepted: self.accepted,
            aborts: self.aborts,
            fail_abort: self.fail_abort,
        }
    }
}

impl ControlState {
    /// A gate with no armed stage and zeroed counters.
    pub fn new() -> (state: ControlState)
        ensures
            state@ == (ControlView {
                stage: None,
                reached: false,
                puts: 0,
                accepted: 0,
                aborts: 0,
                fail_abort: false,
            }),
    {
        ControlState { stage: None, reached: false, puts: 0, accepted: 0, aborts: 0, fail_abort: false }
    }

    /// Arms one stage before an operation starts, resetting the accepted
    /// byte count. Refused, with nothing changed, while a previous gate is
    /// still armed.
    pub fn arm(&mut self, stage: TestStage) -> (armed: bool)
        ensures
            armed == (old(self)@.stage is None),
            armed ==> final(self)@ == (ControlView {
                stage: Some(stage),
                reached: false,
                accepted: 0,
                ..old(self)@
            }),
            armed ==> final(self)@ == armed_at(old(self)@, stage),
            !armed ==> final(self)@ == old(self)@,
    {
        if self.stage.is_some() {
            return false;
        }
        self.accepted = 0;
        self.stage = Some(stage);
        self.reached = false;
        true
    }

    /// Removes the armed stage, so that a parked operation proceeds.
    pub fn release(&mut self)
        ensures
            final(self)@ == (ControlView { stage: None, ..old(self)@ }),
    {
        self.stage = None;
    }

    /// Whether the armed stage has been reached; the observer waits
    /// otherwise.
    pub fn poll_reached(&self) -> (reached: bool)
        ensures
            reached == self@.reached,
    {
        self.reached
    }

    /// Makes the next abort fail once.
    pub fn fail_next_abort(&mut self)
        ensures
            final(self)@ == (ControlView { fail_abort: true, ..old(self)@ }),
            final(self)@ == gate_after(old(self)@, GateOp::FailNextAbort),
    {
        self.fail_abort = true;
    }

    /// Returns the bytes acknowledged since the current gate was armed.
    pub fn accepted_bytes(&self) -> (bytes: u64)
        ensures
            bytes == self@.accepted,
    {
        self.accepted as u64
    }

    /// Records bytes accepted by the provider.
    pub fn record_write(&mut self, count: usize)
        ensures
            final(self)@ == (ControlView { accepted: bumped(old(self)@.accepted, count), ..old(self)@ }),
            final(self)@ == gate_after(old(self)@, GateOp::Write(count)),
    {
        self.accepted = self.accepted.wrapping_add(count);
    }

    /// Returns the number of SDK PUT dispatches.
    pub fn put_calls(&self) -> (calls: usize)
        ensures
            calls == self@.puts,
    {
        self.puts
    }

    /// Returns the number of abort attempts.
    pub fn abort_calls(&self) -> (calls: usize)
        ensures
            calls == self@.aborts,
    {
        self.aborts
    }

    /// Decides what an operation arriving at `stage` does: it continues
    /// unless that stage is armed, in which case arrival is acknowledged
    /// and the operation parks.
    pub fn poll_gate(&mut self, stage: TestStage) -> (poll: GatePoll)
        ensures
            old(self)@.stage != Some(stage) ==> poll == GatePoll::Ready && final(self)@ == old(self)@,
            old(self)@.stage == Some(stage) ==> poll == GatePoll::Parked && final(self)@ == (ControlView {
                reached: true,
                ..old(self)@
            }),
            final(self)@ == gate_after(old(self)@, GateOp::Poll(stage)),
    {
        if self.stage != Some(stage) {
            return GatePoll::Ready;
        }
        self.reached = true;
        GatePoll::Parked
    }

    /// Records an SDK PUT dispatch.
    pub fn record_put(&mut self)
        ensures
            final(self)@ == (ControlView { puts: bumped(old(self)@.puts, 1), ..old(self)@ }),
            final(self)@ == gate_after(old(self)@, GateOp::Put),
    {
        self.puts = self.puts.wrapping_add(1);
    }

    /// Records an abort attempt and consumes a configured one-shot failure;
    /// returns whether this abort must fail.
    pub fn begin_abort(&mut self) -> (fail: bool)
        ensures
            fail == old(self)@.fail_abort,
            final(self)@ == (ControlView {
                aborts: bumped(old(self)@.aborts, 1),
                fail_abort: false,
                ..old(self)@
            }),
            final(self)@ == gate_after(old(self)@, GateOp::Abort),
    {
        self.aborts = self.aborts.wrapping_add(1);
        let fail = self.fail_abort;
        self.fail_abort = false;
        fail
    }
}

/// One call on an armed gate other than arming or releasing it.
pub enum GateOp {
    /// An operation arrives at a stage.
    Poll(TestStage),
    /// The provider accepts bytes.
    Write(usize),
    /// An SDK PUT is dispatched.
    Put,
    /// An abort is attempted.
    Abort,
    /// The next abort is made to fail once.
    FailNextAbort,
}

/// The control state after one call.
pub open spec fn gate_after(state: ControlView, op: GateOp) -> ControlView {
    match op {
        GateOp::Poll(stage) => if state.stage == Some(stage) {
            ControlView { reached: true, ..state }
        } else {
            state
        },
        GateOp::Write(count) => ControlView { accepted: bumped(state.accepted, count), ..state },
        GateOp::Put => ControlView { puts: bumped(state.puts, 1), ..state },
        GateOp::Abort => ControlView { aborts: bumped(state.aborts, 1), fail_abort: false, ..state },
        GateOp::FailNextAbort => ControlView { fail_abort: true, ..state },
    }
}

/// The control state after a sequence of calls, taken in order.
pub open spec fn gate_after_all(state: ControlView, ops: Seq<GateOp>) -> ControlView
    decreases ops.len(),
{
    if ops.len() == 0 {
        state
    } else {
        gate_after(gate_after_all(state, ops.drop_last()), ops.last())
    }
}

/// The control state right after `stage` was armed while nothing was armed.
pub open spec fn armed_at(state: ControlView, stage: TestStage) -> ControlView {
    ControlView { stage: Some(stage), reached: false, accepted: 0, ..state }
}

/// After a stage is armed, and for as long as it stays armed, the observer
/// sees the stage as reached exactly when an operation has arrived at that
/// stage since the arming; arrivals at other stages, writes, dispatches and
/// aborts neither reach it nor disarm it.
pub proof fn law_gate_reached_iff_polled_since_arm(state: ControlView, stage: TestStage, ops: Seq<GateOp>)
    ensures
        gate_after_all(armed_at(state, stage), ops).stage == Some(stage),
        gate_after_all(armed_at(state, stage), ops).reached <==> ops.contains(GateOp::Poll(stage)),
    decreases ops.len(),
{
    if ops.len() > 0 {
        let rest = ops.drop_last();
        law_gate_reached_iff_polled_since_arm(state, stage, rest);
        assert(ops =~= rest.push(ops.last()));
        if rest.contains(GateOp::Poll(stage)) {
            let i = choose|i: int| 0 <= i < rest.len() && rest[i] == GateOp::Poll(stage);
            assert(ops[i] == GateOp::Poll(stage));
        }
        if ops.contains(GateOp::Poll(stage)) && ops.last() != GateOp::Poll(stage) {
            let i = choose|i: int| 0 <= i < ops.len() && ops[i] == GateOp::Poll(stage);
            assert(i < rest.len());
            assert(rest[i] == GateOp::Poll(stage));
        }
        if ops.last() == GateOp::Poll(stage) {
            assert(ops[ops.len() - 1] == GateOp::Poll(stage));
        }
    }
}

/// An armed stage parks exactly the operations that reach it, and a
/// release lets the next arrival proceed.
pub proof fn law_gate_parks_only_the_armed_stage(state: ControlView, armed: TestStage, arriving: TestStage)
    requires
        state.stage == Some(armed),
    ensures
        (armed == arriving) == (state.stage == Some(arriving)),
        (ControlView { stage: None, ..state }).stage != Some(arriving),
{
}

/// A configured abort failure is consumed by exactly one abort: the
/// following abort succeeds unless failure is configured again.
pub proof fn law_abort_failure_is_one_shot(state: ControlView)
    ensures
        (ControlView { aborts: bumped(state.aborts, 1), fail_abort: false, ..state }).fail_abort == false,
{
}

} // verus!
