use vstd::prelude::*;

verus! {

/// What the runner of a plan does next.
#[derive(Debug, PartialEq, Eq)]
pub enum Step {
    /// Make the call at this index of the plan.
    Call(usize),
    /// Every call succeeded: the instruction succeeds.
    Done,
    /// A call failed: the instruction fails with that call's error, and no
    /// later call is made.
    Stop,
}

/// The progress of running a plan of `len` calls: how many calls succeeded so
/// far, and the error of the call that failed, if one did.
#[derive(Debug, PartialEq, Eq)]
pub struct PlanRun<E> {
    pub len: usize,
    pub next: usize,
    pub failure: Option<E>,
}

/// The step that a run in state `s` takes next.
pub open spec fn spec_step<E>(s: PlanRun<E>) -> Step {
    if s.failure is Some {
        Step::Stop
    } else if s.next < s.len {
        Step::Call(s.next)
    } else {
        Step::Done
    }
}

/// The state after the call at `s.next` came back with `outcome`.
pub open spec fn spec_record<E>(s: PlanRun<E>, outcome: Result<(), E>) -> PlanRun<E> {
    match outcome {
        Ok(()) => PlanRun { len: s.len, next: (s.next + 1) as usize, failure: None },
        Err(e) => PlanRun { len: s.len, next: s.next, failure: Some(e) },
    }
}

/// What the instruction returns when a run ends in state `s`: the error of
/// the failed call, or success.
pub open spec fn spec_result<E>(s: PlanRun<E>) -> Result<(), E> {
    match s.failure {
        Some(e) => Err(e),
        None => Ok(()),
    }
}

/// The state in which a run ends when the calls, from `s.next` on, come back
/// with the outcomes in `outcomes` (one per call of the plan, by index).
pub open spec fn spec_drive<E>(s: PlanRun<E>, outcomes: Seq<Result<(), E>>) -> PlanRun<E>
    decreases s.len - s.next, (if s.failure is Some { 0int } else { 1int }),
{
    if s.failure is None && s.next < s.len {
        spec_drive(spec_record(s, outcomes[s.next as int]), outcomes)
    } else {
        s
    }
}

impl<E> PlanRun<E> {
    /// The state in which it is well formed: never past the end of the plan.
    pub open spec fn wf(self) -> bool {
        self.next <= self.len
    }

    /// A run that has made no call yet.
    pub fn start(len: usize) -> (s: PlanRun<E>)
        ensures
            s == (PlanRun::<E> { len, next: 0, failure: None }),
    {
        PlanRun { len, next: 0, failure: None }
    }

    /// What to do next.
    pub fn step(&self) -> (st: Step)
        ensures
            st == spec_step(*self),
    {
        if self.failure.is_some() {
            Step::Stop
        } else if self.next < self.len {
            Step::Call(self.next)
        } else {
            Step::Done
        }
    }

    /// Records the outcome of the call that `step` asked for.
    pub fn record(&mut self, outcome: Result<(), E>)
        requires
            old(self).wf(),
            spec_step(*old(self)) is Call,
        ensures
            *final(self) == spec_record(*old(self), outcome),
            final(self).wf(),
    {
        match outcome {
            Ok(()) => {
                self.next = self.next + 1;
            },
            Err(e) => {
                self.failure = Some(e);
            },
        }
    }

    /// What the instruction returns once the run has ended: the error of the
    /// call that failed, or success when every call succeeded.
    pub fn finish(self) -> (r: Result<(), E>)
        requires
            spec_step(self) !is Call,
        ensures
            r == spec_result(self),
    {
        match self.failure {
            Some(e) => Err(e),
            None => Ok(()),
        }
    }
}

/// Running a plan stops at the first failed call: the calls made are those
/// up to the first that fails, in the plan's order, and the run fails exactly
/// when one of them fails, with that call's error. When every call succeeds,
/// every call is made and the run succeeds.
pub proof fn lemma_run_stops_at_first_failure<E>(s: PlanRun<E>, outcomes: Seq<Result<(), E>>)
    requires
        s.wf(),
        s.failure is None,
        outcomes.len() == s.len,
    ensures
        spec_drive(s, outcomes).wf(),
        spec_drive(s, outcomes).next >= s.next,
        spec_drive(s, outcomes).failure is Some <==> exists|i: int|
            s.next <= i < s.len && #[trigger] outcomes[i] is Err,
        spec_drive(s, outcomes).failure is None ==> {
            &&& spec_drive(s, outcomes).next == s.len
            &&& spec_result(spec_drive(s, outcomes)) == Ok::<(), E>(())
        },
        spec_drive(s, outcomes).failure is Some ==> {
            &&& spec_drive(s, outcomes).next < s.len
            &&& spec_result(spec_drive(s, outcomes)) == outcomes[spec_drive(s, outcomes).next as int]
            &&& forall|j: int| s.next <= j < spec_drive(s, outcomes).next ==> #[trigger] outcomes[j] is Ok
        },
        spec_step(spec_drive(s, outcomes)) !is Call,
    decreases s.len - s.next,
{
    if s.next < s.len {
        let o = outcomes[s.next as int];
        let t = spec_record(s, o);
        match o {
            Ok(()) => {
                lemma_run_stops_at_first_failure(t, outcomes);
                let r = spec_drive(t, outcomes);
                if r.failure is Some {
                    let k = r.next as int;
                    assert(s.next <= k < s.len && outcomes[k] is Err);
                } else {
                    assert forall|i: int| s.next <= i < s.len implies !(#[trigger] outcomes[i] is Err) by {
                        if i > s.next {
                            assert(t.next <= i < t.len);
                        }
                    }
                }
            },
            Err(e) => {
                assert(spec_drive(t, outcomes) == t);
                assert(s.next <= s.next < s.len && outcomes[s.next as int] is Err);
            },
        }
    }
}

} // verus!
