//! A three-step form wizard that collects a person's name, age and height.
//!
//! The wizard is a small state machine. Each step holds the answers given so
//! far, a step counts as complete once its own answer is non-empty, and the
//! machine moves forward only from a complete step. Completing the last step
//! yields a [`Person`]. The crate holds the machine alone: a host feeds it
//! signals and acts on the outcomes.

pub mod laws;
pub mod machine;
pub mod steps;

pub use machine::{Outcome, OutcomeView, Signal, Wizard, WizardView};
pub use steps::{AgeState, AgeView, HeightState, HeightView, NameState, NameView, Person, PersonView};
