//! The wizard itself: the active step with its answers, and the transitions.
//!
//! The transitions are defined once, as functions on [`WizardView`]; the
//! methods of [`Wizard`] are proved to compute exactly those.

use vstd::prelude::*;
use vstd::std_specs::cmp::PartialEqSpecImpl;
use crate::steps::{AgeState, HeightState, NameState, Person};
use crate::steps::{AgeView, HeightView, NameView, PersonView};

verus! {

/// The wizard: exactly one step is active, and it holds every answer given
/// so far.
#[derive(Debug)]
pub enum Wizard {
    Name(NameState),
    Age(AgeState),
    Height(HeightState),
}

/// What a [`Wizard`] stands for: the active step with the view of its record.
pub enum WizardView {
    Name(NameView),
    Age(AgeView),
    Height(HeightView),
}

/// A request that the host passes to the wizard.
#[derive(Clone, Copy, Debug, PartialEq, Eq, Structural)]
pub enum Signal {
    /// Advance by one step.
    Next,
    /// Go back by one step.
    Back,
    /// Abandon the wizard.
    Quit,
}

/// What a signal led to, for the host to act on.
#[derive(Debug)]
pub enum Outcome {
    /// The wizard moved one step forward.
    Advanced,
    /// The wizard moved one step back.
    Regressed,
    /// The last step was complete: the wizard is finished and hands over the
    /// record. The wizard itself is left as it was.
    Finished(Person),
    /// The user gave up. The wizard itself is left as it was.
    Cancelled,
}

/// What an [`Outcome`] stands for.
pub enum OutcomeView {
    Advanced,
    Regressed,
    Finished(PersonView),
    Cancelled,
}

impl View for Wizard {
    type V = WizardView;

    open spec fn view(&self) -> WizardView {
        match self {
            Wizard::Name(s) => WizardView::Name(s@),
            Wizard::Age(s) => WizardView::Age(s@),
            Wizard::Height(s) => WizardView::Height(s@),
        }
    }
}

impl View for Outcome {
    type V = OutcomeView;

    open spec fn view(&self) -> OutcomeView {
        match self {
            Outcome::Advanced => OutcomeView::Advanced,
            Outcome::Regressed => OutcomeView::Regressed,
            Outcome::Finished(p) => OutcomeView::Finished(p@),
            Outcome::Cancelled => OutcomeView::Cancelled,
        }
    }
}

impl WizardView {
    /// Where every wizard starts: the name step, with an empty name.
    pub open spec fn start() -> WizardView {
        WizardView::Name(NameView::blank())
    }

    /// Whether the active step is complete.
    pub open spec fn done(self) -> bool {
        match self {
            WizardView::Name(s) => s.done(),
            WizardView::Age(s) => s.done(),
            WizardView::Height(s) => s.done(),
        }
    }

    /// The name, which every step holds.
    pub open spec fn name(self) -> Seq<char> {
        match self {
            WizardView::Name(s) => s.name,
            WizardView::Age(s) => s.name,
            WizardView::Height(s) => s.name,
        }
    }

    /// The state after a request to advance. An incomplete step stays as it
    /// is. A complete name or age step gives way to the step after it. The
    /// height step stays, complete or not: it has no successor.
    pub open spec fn next(self) -> WizardView {
        match self {
            WizardView::Name(s) => if s.done() {
                WizardView::Age(s.to_age())
            } else {
                self
            },
            WizardView::Age(s) => if s.done() {
                WizardView::Height(s.to_height())
            } else {
                self
            },
            WizardView::Height(_) => self,
        }
    }

    /// The record that a request to advance yields: the person, when the
    /// height step is active and complete, and nothing otherwise.
    pub open spec fn finished(self) -> Option<PersonView> {
        match self {
            WizardView::Height(s) => if s.done() {
                Some(s.to_person())
            } else {
                None
            },
            _ => None,
        }
    }

    /// The state after a request to go back, which asks for no complete step.
    /// The name step stays as it is; the others give way to the step before.
    pub open spec fn back(self) -> WizardView {
        match self {
            WizardView::Name(_) => self,
            WizardView::Age(s) => WizardView::Name(s.to_name()),
            WizardView::Height(s) => WizardView::Age(s.to_age()),
        }
    }

    /// The state after `n` requests to go back.
    pub open spec fn back_times(self, n: nat) -> WizardView
        decreases n,
    {
        if n == 0 {
            self
        } else {
            self.back().back_times((n - 1) as nat)
        }
    }

    /// The state after the given signal.
    pub open spec fn after(self, signal: Signal) -> WizardView {
        match signal {
            Signal::Next => self.next(),
            Signal::Back => self.back(),
            Signal::Quit => self,
        }
    }

    /// What the given signal leads to, or nothing where it is ignored: a
    /// request to advance from an incomplete step, or to go back from the
    /// name step.
    pub open spec fn outcome(self, signal: Signal) -> Option<OutcomeView> {
        match signal {
            Signal::Next => match self.finished() {
                Some(person) => Some(OutcomeView::Finished(person)),
                None => if self.done() {
                    Some(OutcomeView::Advanced)
                } else {
                    None
                },
            },
            Signal::Back => if self is Name {
                None
            } else {
                Some(OutcomeView::Regressed)
            },
            Signal::Quit => Some(OutcomeView::Cancelled),
        }
    }
}

impl Clone for Wizard {
    fn clone(&self) -> (r: Wizard)
        ensures
            r@ == self@,
    {
        match self {
            Wizard::Name(s) => Wizard::Name(s.clone()),
            Wizard::Age(s) => Wizard::Age(s.clone()),
            Wizard::Height(s) => Wizard::Height(s.clone()),
        }
    }
}

impl PartialEq for Wizard {
    fn eq(&self, other: &Wizard) -> (r: bool) {
        match (self, other) {
            (Wizard::Name(a), Wizard::Name(b)) => a == b,
            (Wizard::Age(a), Wizard::Age(b)) => a == b,
            (Wizard::Height(a), Wizard::Height(b)) => a == b,
            _ => false,
        }
    }
}

impl PartialEqSpecImpl for Wizard {
    open spec fn obeys_eq_spec() -> bool {
        true
    }

    /// Two wizards are equal when their views are.
    open spec fn eq_spec(&self, other: &Wizard) -> bool {
        self@ == other@
    }
}

impl Eq for Wizard {

}

impl Clone for Outcome {
    fn clone(&self) -> (r: Outcome)
        ensures
            r@ == self@,
    {
        match self {
            Outcome::Advanced => Outcome::Advanced,
            Outcome::Regressed => Outcome::Regressed,
            Outcome::Finished(p) => Outcome::Finished(p.clone()),
            Outcome::Cancelled => Outcome::Cancelled,
        }
    }
}

impl PartialEq for Outcome {
    fn eq(&self, other: &Outcome) -> (r: bool) {
        match (self, other) {
            (Outcome::Advanced, Outcome::Advanced) => true,
            (Outcome::Regressed, Outcome::Regressed) => true,
            (Outcome::Finished(a), Outcome::Finished(b)) => a == b,
            (Outcome::Cancelled, Outcome::Cancelled) => true,
            _ => false,
        }
    }
}

impl PartialEqSpecImpl for Outcome {
    open spec fn obeys_eq_spec() -> bool {
        true
    }

    /// Two outcomes are equal when their views are.
    open spec fn eq_spec(&self, other: &Outcome) -> bool {
        self@ == other@
    }
}

impl Eq for Outcome {

}

impl Wizard {
    /// A wizard at its first step, with an empty name.
    pub fn new() -> (w: Wizard)
        ensures
            w@ == WizardView::start(),
    {
        Wizard::Name(NameState { name: String::new() })
    }

    /// Whether the active step is complete.
    pub fn done(&self) -> (r: bool)
        ensures
            r == self@.done(),
    {
        match self {
            Wizard::Name(s) => s.done(),
            Wizard::Age(s) => s.done(),
            Wizard::Height(s) => s.done(),
        }
    }

    /// Handles a request to advance. From an incomplete step nothing happens.
    /// A complete name or age step is replaced by the step after it. At a
    /// complete height step the wizard stays as it is and the finished record
    /// is returned.
    pub fn next(&mut self) -> (emitted: Option<Person>)
        ensures
            final(self)@ == old(self)@.next(),
            match emitted {
                Some(p) => old(self)@.finished() == Some(p@),
                None => old(self)@.finished() is None,
            },
    {
        match self {
            Wizard::Name(name_state) => {
                if name_state.done() {
                    *self = Wizard::Age(AgeState::from(name_state.clone()));
                }
                None
            },
            Wizard::Age(age_state) => {
                if age_state.done() {
                    *self = Wizard::Height(HeightState::from(age_state.clone()));
                }
                None
            },
            Wizard::Height(height_state) => {
                if height_state.done() {
                    Some(Person::from(height_state.clone()))
                } else {
                    None
                }
            },
        }
    }

    /// Handles a request to go back. At the name step nothing happens; any
    /// other step is replaced by the step before it, complete or not.
    pub fn back(&mut self)
        ensures
            final(self)@ == old(self)@.back(),
    {
        match self {
            Wizard::Name(_) => {},
            Wizard::Age(age_state) => {
                *self = Wizard::Name(NameState::from(age_state.clone()));
            },
            Wizard::Height(height_state) => {
                *self = Wizard::Age(AgeState::from(height_state.clone()));
            },
        }
    }

    /// Handles a request to abandon the wizard. The wizard is not touched:
    /// the host is told, and decides what becomes of it.
    pub fn quit(&self) -> (out: Outcome)
        ensures
            out@ == OutcomeView::Cancelled,
    {
        Outcome::Cancelled
    }

    /// Handles one signal of the host and says what it led to, or `None`
    /// where the signal was ignored.
    pub fn handle(&mut self, signal: Signal) -> (out: Option<Outcome>)
        ensures
            final(self)@ == old(self)@.after(signal),
            match out {
                Some(o) => old(self)@.outcome(signal) == Some(o@),
                None => old(self)@.outcome(signal) is None,
            },
    {
        match signal {
            Signal::Next => {
                let complete = self.done();
                match self.next() {
                    Some(person) => Some(Outcome::Finished(person)),
                    None => if complete {
                        Some(Outcome::Advanced)
                    } else {
                        None
                    },
                }
            },
            Signal::Back => {
                let at_start = match self {
                    Wizard::Name(_) => true,
                    _ => false,
                };
                self.back();
                if at_start {
                    None
                } else {
                    Some(Outcome::Regressed)
                }
            },
            Signal::Quit => Some(self.quit()),
        }
    }
}

} // verus!
