use vstd::prelude::*;

verus! {

/// Where a closure stands in its life.
#[derive(Clone, Copy, Debug, PartialEq, Eq, Structural)]
pub enum Phase {
    /// Never constructed: the gravestone.
    Uninitialized,
    /// Constructed; calls may be dispatched.
    Active,
    /// Release was asked for and waits for calls still running.
    Releasing,
    /// Released: a gravestone again.
    Released,
}

/// What the component that delivers calls asks of the closure's lifecycle.
#[derive(Clone, Copy, Debug, PartialEq, Eq, Structural)]
pub enum Event {
    /// The closure was built from a callable and its state.
    Construct,
    /// A call wants to start.
    BeginCall,
    /// A call that was dispatched has returned.
    EndCall,
    /// The owner asks for the closure to be released.
    BeginRelease,
}

/// What the delivering component must do in answer to an event.
#[derive(Clone, Copy, Debug, PartialEq, Eq, Structural)]
pub enum Action {
    /// Nothing to do.
    Nothing,
    /// Run the callable now.
    Dispatch,
    /// The call was refused (the closure holds no callable): log it, call nothing.
    Refuse,
    /// Run the release function now, exactly this once.
    RunRelease,
}

/// The lifecycle of one closure: its phase, the number of calls dispatched
/// and the number of those that have returned.
#[derive(Clone, Copy, Debug, PartialEq, Eq, Structural)]
pub struct ClosureLifecycle {
    pub phase: Phase,
    pub started: u64,
    pub finished: u64,
}

impl ClosureLifecycle {
    /// Calls dispatched and not yet returned.
    pub open spec fn in_flight(&self) -> int {
        self.started - self.finished
    }

    /// The states reachable from a fresh lifecycle.
    pub open spec fn wf(&self) -> bool {
        &&& self.finished <= self.started
        &&& self.phase == Phase::Uninitialized ==> self.started == 0
        &&& self.phase == Phase::Released ==> self.finished == self.started
    }

    /// The event that a lifecycle in this state can take without a counter
    /// running out.
    pub open spec fn can_take(&self, e: Event) -> bool {
        e == Event::BeginCall ==> self.started < u64::MAX
    }
}

/// The state and action that answer event `e` in state `s`.
pub open spec fn step_model(s: ClosureLifecycle, e: Event) -> (ClosureLifecycle, Action) {
    match e {
        Event::Construct => if s.phase == Phase::Uninitialized {
            (ClosureLifecycle { phase: Phase::Active, ..s }, Action::Nothing)
        } else {
            (s, Action::Nothing)
        },
        Event::BeginCall => if s.phase == Phase::Active {
            (ClosureLifecycle { started: (s.started + 1) as u64, ..s }, Action::Dispatch)
        } else {
            (s, Action::Refuse)
        },
        Event::EndCall => if s.finished < s.started && (s.phase == Phase::Active || s.phase
            == Phase::Releasing) {
            let f = (s.finished + 1) as u64;
            if s.phase == Phase::Releasing && f == s.started {
                (ClosureLifecycle { phase: Phase::Released, finished: f, ..s }, Action::RunRelease)
            } else {
                (ClosureLifecycle { finished: f, ..s }, Action::Nothing)
            }
        } else {
            (s, Action::Nothing)
        },
        Event::BeginRelease => if s.phase == Phase::Active {
            if s.finished == s.started {
                (ClosureLifecycle { phase: Phase::Released, ..s }, Action::RunRelease)
            } else {
                (ClosureLifecycle { phase: Phase::Releasing, ..s }, Action::Nothing)
            }
        } else {
            (s, Action::Nothing)
        },
    }
}

impl ClosureLifecycle {
    /// A lifecycle for a closure that was never constructed.
    pub fn new() -> (r: Self)
        ensures
            r.phase == Phase::Uninitialized,
            r.started == 0,
            r.finished == 0,
            r.wf(),
    {
        ClosureLifecycle { phase: Phase::Uninitialized, started: 0, finished: 0 }
    }

    /// Takes event `e` and returns what the delivering component must do.
    pub fn step(&mut self, e: Event) -> (a: Action)
        requires
            old(self).can_take(e),
        ensures
            (*final(self), a) == step_model(*old(self), e),
    {
        match e {
            Event::Construct => {
                if self.phase == Phase::Uninitialized {
                    self.phase = Phase::Active;
                }
                Action::Nothing
            },
            Event::BeginCall => {
                if self.phase == Phase::Active {
                    self.started = self.started + 1;
                    Action::Dispatch
                } else {
                    Action::Refuse
                }
            },
            Event::EndCall => {
                if self.finished < self.started && (self.phase == Phase::Active || self.phase
                    == Phase::Releasing) {
                    self.finished = self.finished + 1;
                    if self.phase == Phase::Releasing && self.finished == self.started {
                        self.phase = Phase::Released;
                        Action::RunRelease
                    } else {
                        Action::Nothing
                    }
                } else {
                    Action::Nothing
                }
            },
            Event::BeginRelease => {
                if self.phase == Phase::Active {
                    if self.finished == self.started {
                        self.phase = Phase::Released;
                        Action::RunRelease
                    } else {
                        self.phase = Phase::Releasing;
                        Action::Nothing
                    }
                } else {
                    Action::Nothing
                }
            },
        }
    }
}

/// The final state and the actions that answer events `es`, in order,
/// starting from `s`.
pub open spec fn run_model(s: ClosureLifecycle, es: Seq<Event>) -> (ClosureLifecycle, Seq<Action>)
    decreases es.len(),
{
    if es.len() == 0 {
        (s, Seq::empty())
    } else {
        let (t, a) = step_model(s, es[0]);
        let (u, rest) = run_model(t, es.drop_first());
        (u, seq![a] + rest)
    }
}

/// How many of `acts` are `a`.
pub open spec fn count_of(acts: Seq<Action>, a: Action) -> nat
    decreases acts.len(),
{
    if acts.len() == 0 {
        0
    } else {
        (if acts[0] == a {
            1nat
        } else {
            0nat
        }) + count_of(acts.drop_first(), a)
    }
}

proof fn lemma_count_zero(acts: Seq<Action>, a: Action)
    requires
        count_of(acts, a) == 0,
    ensures
        forall|j: int| 0 <= j < acts.len() ==> acts[j] != a,
    decreases acts.len(),
{
    if acts.len() > 0 {
        lemma_count_zero(acts.drop_first(), a);
        assert forall|j: int| 0 <= j < acts.len() implies acts[j] != a by {
            if j > 0 {
                assert(acts[j] == acts.drop_first()[j - 1]);
            }
        }
    }
}

/// Every event keeps a lifecycle among the states reachable from a fresh one.
pub proof fn lemma_step_keeps_wf(s: ClosureLifecycle, e: Event)
    requires
        s.wf(),
        s.can_take(e),
    ensures
        step_model(s, e).0.wf(),
{
}

/// A closure that holds no callable (never constructed, released, or being
/// released) refuses every call: nothing is dispatched and its state is left
/// as it was.
pub proof fn lemma_gravestone_refuses_calls(s: ClosureLifecycle)
    requires
        s.phase != Phase::Active,
    ensures
        step_model(s, Event::BeginCall) == (s, Action::Refuse),
{
}

/// A released closure stays released: no event changes it, dispatches a
/// call or runs the release again.
pub proof fn lemma_released_is_final(s: ClosureLifecycle, e: Event)
    requires
        s.phase == Phase::Released,
    ensures
        step_model(s, e).0 == s,
        step_model(s, e).1 != Action::Dispatch,
        step_model(s, e).1 != Action::RunRelease,
{
}

/// Over any run of events: the callable runs exactly as often as calls were
/// dispatched; release runs at most once, and never again on a closure that
/// was already released; no call is dispatched after release ran; and once
/// release ran, every dispatched call has returned.
pub proof fn lemma_release_once_after_calls(s: ClosureLifecycle, es: Seq<Event>)
    requires
        s.wf(),
        s.started + es.len() < u64::MAX,
    ensures
        ({
            let (u, acts) = run_model(s, es);
            &&& u.wf()
            &&& acts.len() == es.len()
            &&& count_of(acts, Action::Dispatch) == u.started - s.started
            &&& count_of(acts, Action::RunRelease) <= 1
            &&& s.phase == Phase::Released ==> count_of(acts, Action::RunRelease) == 0 && u == s
            &&& count_of(acts, Action::RunRelease) == 1 ==> u.phase == Phase::Released
                && u.finished == u.started
            &&& forall|i: int, j: int|
                0 <= i < j < acts.len() && acts[i] == Action::RunRelease ==> acts[j]
                    != Action::Dispatch
        }),
    decreases es.len(),
{
    if es.len() > 0 {
        let (t, a) = step_model(s, es[0]);
        let (u, rest) = run_model(t, es.drop_first());
        let acts = seq![a] + rest;
        lemma_release_once_after_calls(t, es.drop_first());
        assert(acts.drop_first() =~= rest);
        if a == Action::RunRelease {
            assert(t.phase == Phase::Released);
            lemma_count_zero(rest, Action::Dispatch);
        }
        assert forall|i: int, j: int|
            0 <= i < j < acts.len() && acts[i] == Action::RunRelease implies acts[j]
                != Action::Dispatch by {
            assert(acts[j] == rest[j - 1]);
            if i > 0 {
                assert(acts[i] == rest[i - 1]);
            }
        }
    }
}

} // verus!
