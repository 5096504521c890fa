//! What holds of the wizard whatever its answers are, proved from the
//! definitions of the transitions.

use vstd::prelude::*;
use crate::machine::{OutcomeView, Signal, WizardView};
use crate::steps::{AgeView, HeightView, NameView};

verus! {

/// A step is incomplete when its own answer is empty and complete otherwise;
/// the answers carried over from earlier steps play no part.
pub proof fn lemma_done_iff_answer_given(name: Seq<char>, age: Seq<char>, height: Seq<char>)
    ensures
        (NameView { name }).done() <==> name.len() != 0,
        (AgeView { name, age }).done() <==> age.len() != 0,
        (HeightView { name, age, height }).done() <==> height.len() != 0,
{
}

/// Going back from the age step and forward again keeps the name and leaves
/// the age empty: the age that was there is lost.
pub proof fn lemma_age_back_and_forth(a: AgeView)
    ensures
        a.to_name().to_age() == (AgeView { name: a.name, age: Seq::empty() }),
        a.to_name().to_age() == a <==> a.age =~= Seq::<char>::empty(),
{
}

/// Going back from the height step and forward again keeps name and age and
/// leaves the height empty: the height that was there is lost.
pub proof fn lemma_height_back_and_forth(h: HeightView)
    ensures
        h.to_age().to_height() == (HeightView { name: h.name, age: h.age, height: Seq::empty() }),
        h.to_age().to_height() == h <==> h.height =~= Seq::<char>::empty(),
{
}

/// Going forward and back again gives the record one started from: the
/// backward conversions undo the forward ones.
pub proof fn lemma_forth_and_back(n: NameView, a: AgeView)
    ensures
        n.to_age().to_name() == n,
        a.to_height().to_age() == a,
{
}

/// The finished record holds the three answers of the height step.
pub proof fn lemma_person_holds_all_answers(h: HeightView)
    ensures
        h.to_person().name == h.name,
        h.to_person().age == h.age,
        h.to_person().height == h.height,
{
}

/// At the name step, any number of requests to go back leaves the wizard as
/// it is.
pub proof fn lemma_back_at_name_changes_nothing(w: WizardView, n: nat)
    requires
        w is Name,
    ensures
        w.back_times(n) == w,
    decreases n,
{
    if n > 0 {
        lemma_back_at_name_changes_nothing(w, (n - 1) as nat);
    }
}

/// Two requests to go back always end at the name step, with the name that
/// the wizard held.
pub proof fn lemma_back_twice_reaches_name(w: WizardView)
    ensures
        w.back_times(2) == WizardView::Name(NameView { name: w.name() }),
{
    reveal_with_fuel(WizardView::back_times, 3);
}

/// A request to advance from an incomplete step changes nothing: the same
/// step stays active, with the same answers, and no record is handed out.
pub proof fn lemma_next_at_incomplete_step_changes_nothing(w: WizardView)
    requires
        !w.done(),
    ensures
        w.next() == w,
        w.finished() is None,
        w.outcome(Signal::Next) is None,
{
}

/// A request to advance from a complete step moves to the step after it, and
/// from the complete height step hands out the record and stays.
pub proof fn lemma_next_at_complete_step(w: WizardView)
    requires
        w.done(),
    ensures
        w is Name ==> w.next() is Age,
        w is Age ==> w.next() is Height,
        w is Height ==> w.next() == w && w.finished() is Some,
        w.finished() is Some <==> w is Height,
        w.outcome(Signal::Next) is Some,
{
}

/// Going back undoes an advance: after a request to advance that moved the
/// wizard, a request to go back restores the state from before.
pub proof fn lemma_back_undoes_next(w: WizardView)
    requires
        w.done(),
        !(w is Height),
    ensures
        w.next().back() == w,
{
}

/// No transition touches an answer of an earlier step: the name survives
/// every signal, and so does the age wherever the step before and the step
/// after both hold one.
pub proof fn lemma_carried_answers_survive(w: WizardView, signal: Signal)
    ensures
        w.after(signal).name() == w.name(),
        w matches WizardView::Age(a) ==> (w.after(signal) matches WizardView::Height(h) ==> h.age
            == a.age),
        w matches WizardView::Height(h) ==> (w.after(signal) matches WizardView::Age(a) ==> a.age
            == h.age),
{
}

/// A signal that is ignored leaves the wizard as it is, and so do a request
/// to quit and the advance that finishes the wizard.
pub proof fn lemma_only_moves_change_the_wizard(w: WizardView, signal: Signal)
    ensures
        w.outcome(signal) is None ==> w.after(signal) == w,
        w.outcome(signal) == Some(OutcomeView::Cancelled) ==> w.after(signal) == w,
        w.outcome(signal) matches Some(OutcomeView::Finished(p)) ==> w.after(signal) == w
            && w.finished() == Some(p),
        w.outcome(signal) == Some(OutcomeView::Advanced) ==> w.after(signal) != w,
        w.outcome(signal) == Some(OutcomeView::Regressed) ==> w.after(signal) != w,
{
}

} // verus!
