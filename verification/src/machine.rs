//! The event loop: the machine that owns the current stage and the context
//! and drives them through act/react iterations.
//!
//! On the device the loop runs forever; here the decisions are exposed one
//! iteration at a time. The surrounding application performs the returned
//! [`Action`] on the transport, waits for the next event, and hands the
//! outcome back in. [`EventLoop::run`] drives the machine through a whole
//! sequence of outcomes at once.

use vstd::prelude::*;

use crate::stage;
use crate::stage::{spec_act, spec_react, State};
use crate::types::{Action, Context, Event, TransportError};

verus! {

/// Proves that one reaction keeps the machine's invariant: whichever way a
/// stage reacts — ignoring the event, fail-stopping, or recording the
/// payload and advancing — every slot the stages ahead rely on stays
/// populated.
pub proof fn lemma_react_preserves_wf(s: State, c: Context, e: Event)
    requires
        stage::wf(s, c),
    ensures
        stage::wf(spec_react(s, c, e).0, spec_react(s, c, e).1),
{
}

/// The provisioning machine: the current stage and the values learned so
/// far.
pub struct EventLoop {
    pub state: State,
    pub data: Context,
}

/// The machine after one iteration: a transport error leaves it unchanged,
/// a decoded event is dispatched to the current stage.
pub open spec fn spec_step(m: EventLoop, reading: Result<Event, TransportError>) -> EventLoop {
    match reading {
        Ok(e) => EventLoop { state: spec_react(m.state, m.data, e).0, data: spec_react(
            m.state,
            m.data,
            e,
        ).1 },
        Err(_) => m,
    }
}

/// The machine after a whole sequence of wait outcomes.
pub open spec fn spec_run(m: EventLoop, rs: Seq<Result<Event, TransportError>>) -> EventLoop
    decreases rs.len(),
{
    if rs.len() == 0 {
        m
    } else {
        spec_run(spec_step(m, rs[0]), rs.subrange(1, rs.len() as int))
    }
}

/// The commands issued over a whole sequence of wait outcomes: before each
/// outcome is awaited, the then-current stage issues its command.
pub open spec fn spec_actions(m: EventLoop, rs: Seq<Result<Event, TransportError>>) -> Seq<Action>
    decreases rs.len(),
{
    if rs.len() == 0 {
        Seq::empty()
    } else {
        seq![spec_act(m.state, m.data)] + spec_actions(
            spec_step(m, rs[0]),
            rs.subrange(1, rs.len() as int),
        )
    }
}

/// Running one more outcome after a sequence is one step after the run.
pub proof fn lemma_run_snoc(
    m: EventLoop,
    rs: Seq<Result<Event, TransportError>>,
    r: Result<Event, TransportError>,
)
    ensures
        spec_run(m, rs.push(r)) == spec_step(spec_run(m, rs), r),
    decreases rs.len(),
{
    let rp = rs.push(r);
    if rs.len() == 0 {
        assert(rp[0] == r);
        let tail = rp.subrange(1, rp.len() as int);
        assert(tail.len() == 0);
        assert(spec_run(spec_step(m, r), tail) == spec_step(m, r));
        assert(spec_run(m, rp) == spec_step(m, r));
    } else {
        let sub = rs.subrange(1, rs.len() as int);
        assert(rp[0] == rs[0]);
        assert(rp.subrange(1, rp.len() as int) =~= sub.push(r));
        lemma_run_snoc(spec_step(m, rs[0]), sub, r);
        assert(spec_run(m, rp) == spec_run(spec_step(m, rs[0]), sub.push(r)));
    }
}

/// The commands issued over a sequence and one more outcome: those of the
/// sequence, then the one the stage reached by the run issues.
pub proof fn lemma_actions_snoc(
    m: EventLoop,
    rs: Seq<Result<Event, TransportError>>,
    r: Result<Event, TransportError>,
)
    ensures
        spec_actions(m, rs.push(r)) == spec_actions(m, rs).push(
            spec_act(spec_run(m, rs).state, spec_run(m, rs).data),
        ),
    decreases rs.len(),
{
    let rp = rs.push(r);
    if rs.len() == 0 {
        assert(rp[0] == r);
        let tail = rp.subrange(1, rp.len() as int);
        assert(tail.len() == 0);
        assert(spec_actions(spec_step(m, r), tail) == Seq::<Action>::empty());
        assert(spec_actions(m, rp) == seq![spec_act(m.state, m.data)] + Seq::<Action>::empty());
        assert(spec_actions(m, rp) =~= spec_actions(m, rs).push(
            spec_act(spec_run(m, rs).state, spec_run(m, rs).data),
        ));
    } else {
        let sub = rs.subrange(1, rs.len() as int);
        assert(rp[0] == rs[0]);
        assert(rp.subrange(1, rp.len() as int) =~= sub.push(r));
        lemma_actions_snoc(spec_step(m, rs[0]), sub, r);
        assert(spec_actions(m, rp) == seq![spec_act(m.state, m.data)] + spec_actions(
            spec_step(m, rs[0]),
            sub.push(r),
        ));
        assert(spec_run(m, rs) == spec_run(spec_step(m, rs[0]), sub));
        assert(spec_actions(m, rp) =~= spec_actions(m, rs).push(
            spec_act(spec_run(m, rs).state, spec_run(m, rs).data),
        ));
    }
}

impl EventLoop {
    /// The machine's invariant: the context holds everything the stages the
    /// machine has passed were to record.
    pub open spec fn wf(self) -> bool {
        stage::wf(self.state, self.data)
    }

    /// A machine at the first stage with an empty context.
    pub fn new() -> (m: EventLoop)
        ensures
            m.state == State::GettingVersionInfo,
            m.data == Context::spec_empty(),
            m.wf(),
    {
        EventLoop { state: State::GettingVersionInfo, data: Context::empty() }
    }

    /// The command the current stage issues.
    pub fn act(&self) -> (a: Action)
        requires
            self.wf(),
        ensures
            a == spec_act(self.state, self.data),
    {
        self.state.act(&self.data)
    }

    /// One iteration of the run loop: returns the command the current stage
    /// issues, then reacts to the outcome of the wait that followed it.
    pub fn step(&mut self, reading: Result<Event, TransportError>) -> (a: Action)
        requires
            old(self).wf(),
        ensures
            a == spec_act(old(self).state, old(self).data),
            *final(self) == spec_step(*old(self), reading),
            final(self).wf(),
    {
        let a = self.state.act(&self.data);
        proof {
            if let Ok(e) = reading {
                lemma_react_preserves_wf(self.state, self.data, e);
            }
        }
        self.state = self.state.react(&mut self.data, reading);
        a
    }

    /// Drives the machine through a sequence of wait outcomes, returning the
    /// command issued at each iteration.
    pub fn run(&mut self, readings: &Vec<Result<Event, TransportError>>) -> (actions: Vec<Action>)
        requires
            old(self).wf(),
        ensures
            *final(self) == spec_run(*old(self), readings@),
            actions@ == spec_actions(*old(self), readings@),
            final(self).wf(),
    {
        let ghost m0 = *self;
        let mut actions: Vec<Action> = Vec::new();
        let mut i: usize = 0;
        while i < readings.len()
            invariant
                i <= readings.len(),
                self.wf(),
                *self == spec_run(m0, readings@.take(i as int)),
                actions@ == spec_actions(m0, readings@.take(i as int)),
            decreases readings.len() - i,
        {
            let a = self.step(readings[i]);
            actions.push(a);
            proof {
                assert(readings@.take(i + 1 as int) =~= readings@.take(i as int).push(
                    readings@[i as int],
                ));
                lemma_run_snoc(m0, readings@.take(i as int), readings@[i as int]);
                lemma_actions_snoc(m0, readings@.take(i as int), readings@[i as int]);
            }
            i = i + 1;
        }
        proof {
            assert(readings@.take(readings@.len() as int) =~= readings@);
        }
        actions
    }
}

} // verus!
