//! Properties of whole sessions of the watch loop, over the transitions that
//! `Session::step` follows.
use vstd::prelude::*;
use crate::event::{triggers, WatchEvent};
use crate::session::{ExitReason, actions, after, killed, kills, launched, launches, live, next, Action, Input, Phase};

verus! {

/// A startup whose path check and validation both succeed.
pub open spec fn startup_ok() -> Seq<Input> {
    seq![Input::PathChecked(true), Input::CheckFinished(true)]
}

/// Each notification followed by a successful validation.
pub open spec fn validated_changes(events: Seq<WatchEvent>) -> Seq<Input>
    decreases events.len(),
{
    if events.len() == 0 {
        seq![]
    } else {
        validated_changes(events.drop_last()) + seq![
            Input::Changed(events.last()),
            Input::CheckFinished(true),
        ]
    }
}

proof fn lemma_after_concat(p: Phase, a: Seq<Input>, b: Seq<Input>)
    ensures
        after(p, a + b) == after(after(p, a), b),
        actions(p, a + b) == actions(p, a) + actions(after(p, a), b),
    decreases b.len(),
{
    if b.len() == 0 {
        assert(a + b =~= a);
    } else {
        lemma_after_concat(p, a, b.drop_last());
        assert((a + b).drop_last() =~= a + b.drop_last());
        assert((a + b).last() == b.last());
        assert(actions(p, a + b) =~= actions(p, a) + actions(after(p, a), b));
    }
}

proof fn lemma_two_steps(p: Phase, i0: Input, i1: Input)
    ensures
        actions(p, seq![i0, i1]) == seq![next(p, i0).1, next(next(p, i0).0, i1).1],
        after(p, seq![i0, i1]) == next(next(p, i0).0, i1).0,
{
    reveal_with_fuel(actions, 3);
    reveal_with_fuel(after, 3);
    let s = seq![i0, i1];
    assert(s.drop_last() =~= seq![i0]);
    assert(s.drop_last().drop_last() =~= Seq::<Input>::empty());
    assert(actions(p, s) =~= seq![next(p, i0).1, next(next(p, i0).0, i1).1]);
}

proof fn lemma_counts_two(a0: Action, a1: Action)
    ensures
        launched(seq![a0, a1]) == launches(a0) + launches(a1),
        killed(seq![a0, a1]) == kills(a0) + kills(a1),
{
    reveal_with_fuel(launched, 3);
    reveal_with_fuel(killed, 3);
    let s = seq![a0, a1];
    assert(s.drop_last() =~= seq![a0]);
    assert(s.drop_last().drop_last() =~= Seq::<Action>::empty());
}

proof fn lemma_counts_concat(x: Seq<Action>, y: Seq<Action>)
    ensures
        launched(x + y) == launched(x) + launched(y),
        killed(x + y) == killed(x) + killed(y),
    decreases y.len(),
{
    if y.len() == 0 {
        assert(x + y =~= x);
    } else {
        lemma_counts_concat(x, y.drop_last());
        assert((x + y).drop_last() =~= x + y.drop_last());
        assert((x + y).last() == y.last());
    }
}

proof fn lemma_exited_stays(inputs: Seq<Input>)
    ensures
        after(Phase::Exited, inputs) == Phase::Exited,
        forall|k: int|
            0 <= k < inputs.len() ==> #[trigger] actions(Phase::Exited, inputs)[k] == Action::Nothing,
        actions(Phase::Exited, inputs).len() == inputs.len(),
    decreases inputs.len(),
{
    if inputs.len() > 0 {
        lemma_exited_stays(inputs.drop_last());
    }
}

proof fn lemma_nothing_counts(acts: Seq<Action>)
    requires
        forall|k: int| 0 <= k < acts.len() ==> #[trigger] acts[k] == Action::Nothing,
    ensures
        launched(acts) == 0,
        killed(acts) == 0,
    decreases acts.len(),
{
    if acts.len() > 0 {
        lemma_nothing_counts(acts.drop_last());
    }
}

/// A single transition keeps the books: the children alive before, plus those
/// launched, equal those killed plus those alive after. A restart is only
/// issued while exactly one child is alive, so killing it first leaves none.
pub proof fn lemma_step_balance(phase: Phase, input: Input)
    ensures
        live(phase) + launches(next(phase, input).1) == kills(next(phase, input).1) + live(
            next(phase, input).0,
        ),
        next(phase, input).1 == Action::Restart ==> live(phase) == 1,
        live(next(phase, input).0) <= 1,
{
    match input {
        Input::Changed(ev) => {
            if triggers(ev) {
            }
        },
        _ => {},
    }
}

/// At every point of a session, the children launched so far equal those
/// killed plus those alive, and at most one is alive: never two live
/// long-running children at once.
pub proof fn lemma_at_most_one_live(inputs: Seq<Input>)
    ensures
        launched(actions(Phase::CheckingPath, inputs)) == killed(actions(Phase::CheckingPath, inputs))
            + live(after(Phase::CheckingPath, inputs)),
        live(after(Phase::CheckingPath, inputs)) <= 1,
    decreases inputs.len(),
{
    if inputs.len() > 0 {
        let init = inputs.drop_last();
        lemma_at_most_one_live(init);
        lemma_step_balance(after(Phase::CheckingPath, init), inputs.last());
        let acts = actions(Phase::CheckingPath, inputs);
        assert(acts.drop_last() =~= actions(Phase::CheckingPath, init));
    }
}

/// After a successful startup and one successful validation for each of `n`
/// relevant notifications, exactly `n + 1` long-running children have been
/// launched and `n` killed, and the session is running.
pub proof fn lemma_restart_cycles(events: Seq<WatchEvent>)
    requires
        forall|i: int| 0 <= i < events.len() ==> triggers(#[trigger] events[i]),
    ensures
        after(Phase::CheckingPath, startup_ok() + validated_changes(events)) == Phase::Running,
        launched(actions(Phase::CheckingPath, startup_ok() + validated_changes(events)))
            == events.len() + 1,
        killed(actions(Phase::CheckingPath, startup_ok() + validated_changes(events)))
            == events.len(),
    decreases events.len(),
{
    let all = startup_ok() + validated_changes(events);
    if events.len() == 0 {
        assert(all =~= startup_ok());
        lemma_two_steps(Phase::CheckingPath, Input::PathChecked(true), Input::CheckFinished(true));
        lemma_counts_two(Action::Validate, Action::WatchAndLaunch);
    } else {
        let ev = events.last();
        let prev = startup_ok() + validated_changes(events.drop_last());
        assert(triggers(events[events.len() - 1]));
        lemma_restart_cycles(events.drop_last());
        let tail = seq![Input::Changed(ev), Input::CheckFinished(true)];
        assert(all =~= prev + tail);
        lemma_after_concat(Phase::CheckingPath, prev, tail);
        lemma_two_steps(Phase::Running, Input::Changed(ev), Input::CheckFinished(true));
        lemma_counts_two(Action::Validate, Action::Restart);
        lemma_counts_concat(actions(Phase::CheckingPath, prev), actions(Phase::Running, tail));
    }
}

/// A relevant notification whose validation fails, in a running session,
/// launches and kills nothing and leaves the session running with its child.
pub proof fn lemma_failed_recheck_keeps_child(history: Seq<Input>, ev: WatchEvent)
    requires
        after(Phase::CheckingPath, history) == Phase::Running,
        triggers(ev),
    ensures
        after(
            Phase::CheckingPath,
            history + seq![Input::Changed(ev), Input::CheckFinished(false)],
        ) == Phase::Running,
        launched(
            actions(
                Phase::CheckingPath,
                history + seq![Input::Changed(ev), Input::CheckFinished(false)],
            ),
        ) == launched(actions(Phase::CheckingPath, history)),
        killed(
            actions(
                Phase::CheckingPath,
                history + seq![Input::Changed(ev), Input::CheckFinished(false)],
            ),
        ) == killed(actions(Phase::CheckingPath, history)),
{
    let tail = seq![Input::Changed(ev), Input::CheckFinished(false)];
    lemma_after_concat(Phase::CheckingPath, history, tail);
    lemma_two_steps(Phase::Running, Input::Changed(ev), Input::CheckFinished(false));
    lemma_counts_two(Action::Validate, Action::Nothing);
    lemma_counts_concat(actions(Phase::CheckingPath, history), actions(Phase::Running, tail));
}

/// When the project path is not an existing directory, the first action is to
/// exit with status 1, and nothing is validated, watched or launched after it.
pub proof fn lemma_bad_path_exits(rest: Seq<Input>)
    ensures
        actions(Phase::CheckingPath, seq![Input::PathChecked(false)] + rest)[0] == Action::Exit(
            ExitReason::NotADirectory,
            1,
        ),
        forall|k: int|
            1 <= k < 1 + rest.len() ==> #[trigger] actions(
                Phase::CheckingPath,
                seq![Input::PathChecked(false)] + rest,
            )[k] == Action::Nothing,
        launched(actions(Phase::CheckingPath, seq![Input::PathChecked(false)] + rest)) == 0,
{
    reveal_with_fuel(actions, 2);
    reveal_with_fuel(after, 2);
    reveal_with_fuel(launched, 2);
    let head = seq![Input::PathChecked(false)];
    let exit = Action::Exit(ExitReason::NotADirectory, 1);
    lemma_after_concat(Phase::CheckingPath, head, rest);
    assert(head.drop_last() =~= Seq::<Input>::empty());
    assert(actions(Phase::CheckingPath, head) =~= seq![exit]);
    assert(after(Phase::CheckingPath, head) == Phase::Exited);
    lemma_exited_stays(rest);
    let acts = actions(Phase::CheckingPath, head + rest);
    assert(acts =~= seq![exit] + actions(Phase::Exited, rest));
    lemma_nothing_counts(actions(Phase::Exited, rest));
    lemma_counts_concat(seq![exit], actions(Phase::Exited, rest));
    assert(seq![exit].drop_last() =~= Seq::<Action>::empty());
}

/// When the startup validation fails, the second action is to exit with
/// status 1, and the long-running command is never launched.
pub proof fn lemma_failed_startup_exits(rest: Seq<Input>)
    ensures
        actions(
            Phase::CheckingPath,
            seq![Input::PathChecked(true), Input::CheckFinished(false)] + rest,
        )[1] == Action::Exit(ExitReason::CheckFailed, 1),
        launched(
            actions(
                Phase::CheckingPath,
                seq![Input::PathChecked(true), Input::CheckFinished(false)] + rest,
            ),
        ) == 0,
{
    let head = seq![Input::PathChecked(true), Input::CheckFinished(false)];
    lemma_after_concat(Phase::CheckingPath, head, rest);
    lemma_two_steps(Phase::CheckingPath, Input::PathChecked(true), Input::CheckFinished(false));
    lemma_counts_two(Action::Validate, Action::Exit(ExitReason::CheckFailed, 1));
    lemma_exited_stays(rest);
    lemma_nothing_counts(actions(Phase::Exited, rest));
    lemma_counts_concat(actions(Phase::CheckingPath, head), actions(Phase::Exited, rest));
}

/// One delivered notification in a running session, whatever its validation
/// gives, leads to at most one restart: at most one child killed and one
/// launched.
pub proof fn lemma_one_notification_one_cycle(ev: WatchEvent, ok: bool)
    ensures
        launched(actions(Phase::Running, seq![Input::Changed(ev), Input::CheckFinished(ok)])) <= 1,
        killed(actions(Phase::Running, seq![Input::Changed(ev), Input::CheckFinished(ok)])) <= 1,
{
    lemma_two_steps(Phase::Running, Input::Changed(ev), Input::CheckFinished(ok));
    let n0 = next(Phase::Running, Input::Changed(ev));
    let n1 = next(n0.0, Input::CheckFinished(ok));
    lemma_counts_two(n0.1, n1.1);
}

} // verus!
