//! Properties of a probe task over whole runs of events.
use vstd::prelude::*;
use crate::report::push_url_text;
use crate::task::{
    next, probe_action, sleep_action, ActionModel, EventModel, MeasurementModel, Phase, TaskModel,
};

verus! {

/// The state after feeding `evs` to a task in state `t`, and every action
/// it asked for on the way, in order.
pub open spec fn run(t: TaskModel, evs: Seq<EventModel>) -> (TaskModel, Seq<ActionModel>)
    decreases evs.len(),
{
    if evs.len() == 0 {
        (t, seq![])
    } else {
        let (t1, a1) = next(t, evs[0]);
        let (t2, a2) = run(t1, evs.subrange(1, evs.len() as int));
        (t2, a1 + a2)
    }
}

/// How many pushes `s` holds.
pub open spec fn push_count(s: Seq<ActionModel>) -> nat
    decreases s.len(),
{
    if s.len() == 0 {
        0
    } else {
        (if s[0] is Push { 1nat } else { 0nat }) + push_count(s.subrange(1, s.len() as int))
    }
}

/// How many waits `s` holds.
pub open spec fn sleep_count(s: Seq<ActionModel>) -> nat
    decreases s.len(),
{
    if s.len() == 0 {
        0
    } else {
        (if s[0] is Sleep { 1nat } else { 0nat }) + sleep_count(s.subrange(1, s.len() as int))
    }
}

/// The events of one iteration, from the probe's result to the end of the
/// wait: a push result comes in only after a successful probe.
pub open spec fn iteration_events(at_millis: nat, m: MeasurementModel, delivered: bool) -> Seq<EventModel> {
    let probed = EventModel::Probed { at_millis, outcome: m };
    if m is Success {
        seq![probed, EventModel::Pushed { delivered }, EventModel::Slept]
    } else {
        seq![probed, EventModel::Slept]
    }
}

/// One iteration of a task, from a probe in flight to the next one: a
/// successful probe leads to exactly one push and a failed one to none;
/// either way there is exactly one wait, of the fixed interval, and then
/// the next probe of the same target, with the task as it was.
pub proof fn lemma_one_iteration(t: TaskModel, at_millis: nat, m: MeasurementModel, delivered: bool)
    requires
        t.phase == Phase::Probing,
    ensures
        ({
            let (t2, acts) = run(t, iteration_events(at_millis, m, delivered));
            &&& t2 == t
            &&& push_count(acts) == (if m is Success { 1nat } else { 0nat })
            &&& sleep_count(acts) == 1
            &&& forall|i: int| 0 <= i < acts.len() && (#[trigger] acts[i]) is Sleep ==> acts[i] == sleep_action()
            &&& acts.last() == probe_action(t)
        }),
{
    let evs = iteration_events(at_millis, m, delivered);
    reveal_with_fuel(run, 4);
    reveal_with_fuel(push_count, 5);
    reveal_with_fuel(sleep_count, 5);
    let (t2, acts) = run(t, evs);
    let t1 = next(t, evs[0]).0;
    if m is Success {
        let t1b = next(t1, evs[1]).0;
        assert(evs.subrange(1, 3) =~= seq![evs[1], evs[2]]);
        assert(evs.subrange(1, 3).subrange(1, 2) =~= seq![evs[2]]);
        assert(evs.subrange(1, 3).subrange(1, 2).subrange(1, 1) =~= Seq::<EventModel>::empty());
        assert(t2 =~= t);
        let log = next(t, evs[0]).1[0];
        let push = next(t, evs[0]).1[1];
        assert(acts =~= seq![log, push, sleep_action(), probe_action(t)]);
        assert(acts.subrange(1, 4) =~= seq![push, sleep_action(), probe_action(t)]);
        assert(acts.subrange(1, 4).subrange(1, 3) =~= seq![sleep_action(), probe_action(t)]);
        assert(acts.subrange(1, 4).subrange(1, 3).subrange(1, 2) =~= seq![probe_action(t)]);
        assert(acts.subrange(1, 4).subrange(1, 3).subrange(1, 2).subrange(1, 1) =~= Seq::<ActionModel>::empty());
    } else {
        assert(evs.subrange(1, 2) =~= seq![evs[1]]);
        assert(evs.subrange(1, 2).subrange(1, 1) =~= Seq::<EventModel>::empty());
        assert(t2 =~= t);
        let log = next(t, evs[0]).1[0];
        assert(acts =~= seq![log, sleep_action(), probe_action(t)]);
        assert(acts.subrange(1, 3) =~= seq![sleep_action(), probe_action(t)]);
        assert(acts.subrange(1, 3).subrange(1, 2) =~= seq![probe_action(t)]);
        assert(acts.subrange(1, 3).subrange(1, 2).subrange(1, 1) =~= Seq::<ActionModel>::empty());
    }
}

/// Whatever events a task goes through, it keeps its target, its collector
/// and its job identity, and every push it asks for goes to the collector
/// address of that one identity.
pub proof fn lemma_identity_stable(t: TaskModel, evs: Seq<EventModel>)
    ensures
        run(t, evs).0.target == t.target,
        run(t, evs).0.host == t.host,
        run(t, evs).0.port == t.port,
        run(t, evs).0.identity == t.identity,
        forall|i: int|
            0 <= i < run(t, evs).1.len() && (#[trigger] run(t, evs).1[i]) is Push
                ==> run(t, evs).1[i]->Push_url == push_url_text(t.host, t.port, t.identity),
    decreases evs.len(),
{
    if evs.len() > 0 {
        let (t1, a1) = next(t, evs[0]);
        let rest = evs.subrange(1, evs.len() as int);
        lemma_identity_stable(t1, rest);
        let acts = run(t, evs).1;
        assert(acts == a1 + run(t1, rest).1);
        assert forall|i: int| 0 <= i < acts.len() && (#[trigger] acts[i]) is Push implies acts[i]->Push_url
            == push_url_text(t.host, t.port, t.identity) by {
            if i >= a1.len() {
                assert(acts[i] == run(t1, rest).1[i - a1.len()]);
            }
        }
    }
}

/// A push's outcome changes nothing: after it, a task goes on the same way
/// whether the collector took the push or not, whatever comes next.
pub proof fn lemma_push_outcome_ignored(t: TaskModel, d1: bool, d2: bool, rest: Seq<EventModel>)
    ensures
        run(t, seq![EventModel::Pushed { delivered: d1 }] + rest) == run(
            t,
            seq![EventModel::Pushed { delivered: d2 }] + rest,
        ),
{
    let e1 = seq![EventModel::Pushed { delivered: d1 }] + rest;
    let e2 = seq![EventModel::Pushed { delivered: d2 }] + rest;
    assert(e1.subrange(1, e1.len() as int) =~= rest);
    assert(e2.subrange(1, e2.len() as int) =~= rest);
    assert(next(t, e1[0]) == next(t, e2[0]));
}

/// The events of consecutive iterations, one per entry of `outs`: the time
/// of the probe's result, its outcome, and whether the push (if any) was
/// delivered.
pub open spec fn iterations_events(outs: Seq<(nat, MeasurementModel, bool)>) -> Seq<EventModel>
    decreases outs.len(),
{
    if outs.len() == 0 {
        seq![]
    } else {
        iteration_events(outs[0].0, outs[0].1, outs[0].2) + iterations_events(
            outs.subrange(1, outs.len() as int),
        )
    }
}

/// How many entries of `outs` are successful probes.
pub open spec fn success_count(outs: Seq<(nat, MeasurementModel, bool)>) -> nat
    decreases outs.len(),
{
    if outs.len() == 0 {
        0
    } else {
        (if outs[0].1 is Success { 1nat } else { 0nat }) + success_count(
            outs.subrange(1, outs.len() as int),
        )
    }
}

/// Feeding two runs of events one after the other.
pub proof fn lemma_run_append(t: TaskModel, a: Seq<EventModel>, b: Seq<EventModel>)
    ensures
        run(t, a + b) == (run(run(t, a).0, b).0, run(t, a).1 + run(run(t, a).0, b).1),
    decreases a.len(),
{
    if a.len() == 0 {
        assert(a + b =~= b);
        assert(run(t, a).1 + run(t, b).1 =~= run(t, b).1);
    } else {
        let ab = a + b;
        let rest = a.subrange(1, a.len() as int);
        assert(ab[0] == a[0]);
        assert(ab.subrange(1, ab.len() as int) =~= rest + b);
        let t1 = next(t, a[0]).0;
        lemma_run_append(t1, rest, b);
        let x = next(t, a[0]).1;
        let y = run(t1, rest).1;
        let z = run(run(t1, rest).0, b).1;
        assert(x + (y + z) =~= (x + y) + z);
    }
}

/// Counting pushes over two lists of actions one after the other.
pub proof fn lemma_push_count_append(a: Seq<ActionModel>, b: Seq<ActionModel>)
    ensures
        push_count(a + b) == push_count(a) + push_count(b),
    decreases a.len(),
{
    if a.len() == 0 {
        assert(a + b =~= b);
    } else {
        let ab = a + b;
        assert(ab[0] == a[0]);
        assert(ab.subrange(1, ab.len() as int) =~= a.subrange(1, a.len() as int) + b);
        lemma_push_count_append(a.subrange(1, a.len() as int), b);
    }
}

/// Neither failed probes nor failed pushes end the loop: after any number
/// of iterations, whatever their outcomes, a task is back where it started,
/// with the next probe of its target asked for, and it has asked for
/// exactly one push per successful probe.
pub proof fn lemma_loop_goes_on(t: TaskModel, outs: Seq<(nat, MeasurementModel, bool)>)
    requires
        t.phase == Phase::Probing,
    ensures
        run(t, iterations_events(outs)).0 == t,
        push_count(run(t, iterations_events(outs)).1) == success_count(outs),
        outs.len() > 0 ==> run(t, iterations_events(outs)).1.last() == probe_action(t),
    decreases outs.len(),
{
    if outs.len() == 0 {
        assert(run(t, iterations_events(outs)).1 =~= Seq::<ActionModel>::empty());
    } else {
        let first = iteration_events(outs[0].0, outs[0].1, outs[0].2);
        let rest = outs.subrange(1, outs.len() as int);
        lemma_one_iteration(t, outs[0].0, outs[0].1, outs[0].2);
        lemma_run_append(t, first, iterations_events(rest));
        lemma_loop_goes_on(t, rest);
        let a = run(t, first).1;
        let b = run(t, iterations_events(rest)).1;
        lemma_push_count_append(a, b);
        if rest.len() == 0 {
            assert(b =~= Seq::<ActionModel>::empty());
            assert(a + b =~= a);
        }
    }
}

} // verus!
