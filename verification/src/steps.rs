//! The records that the steps of the wizard hold, when a step is complete,
//! and the conversions between neighbouring steps.
//!
//! Every record has a view that holds its fields as sequences of characters.
//! The conversions are stated on the views: going forward carries the fields
//! over and adds an empty one, going back drops the newest field.

use vstd::prelude::*;
use vstd::std_specs::cmp::PartialEqSpecImpl;
use vstd::std_specs::convert::FromSpecImpl;

verus! {

/// The answers of the first step: the name, as typed so far.
#[derive(Debug)]
pub struct NameState {
    pub name: String,
}

/// The answers of the second step: the name carried over, and the age.
#[derive(Debug)]
pub struct AgeState {
    pub name: String,
    pub age: String,
}

/// The answers of the last step: name and age carried over, and the height.
#[derive(Debug)]
pub struct HeightState {
    pub name: String,
    pub age: String,
    pub height: String,
}

/// The record that a completed wizard yields.
#[derive(Debug)]
pub struct Person {
    pub name: String,
    pub age: String,
    pub height: String,
}

/// What a [`NameState`] stands for.
pub struct NameView {
    pub name: Seq<char>,
}

/// What an [`AgeState`] stands for.
pub struct AgeView {
    pub name: Seq<char>,
    pub age: Seq<char>,
}

/// What a [`HeightState`] stands for.
pub struct HeightView {
    pub name: Seq<char>,
    pub age: Seq<char>,
    pub height: Seq<char>,
}

/// What a [`Person`] stands for.
pub struct PersonView {
    pub name: Seq<char>,
    pub age: Seq<char>,
    pub height: Seq<char>,
}

impl View for NameState {
    type V = NameView;

    open spec fn view(&self) -> NameView {
        NameView { name: self.name@ }
    }
}

impl View for AgeState {
    type V = AgeView;

    open spec fn view(&self) -> AgeView {
        AgeView { name: self.name@, age: self.age@ }
    }
}

impl View for HeightState {
    type V = HeightView;

    open spec fn view(&self) -> HeightView {
        HeightView { name: self.name@, age: self.age@, height: self.height@ }
    }
}

impl View for Person {
    type V = PersonView;

    open spec fn view(&self) -> PersonView {
        PersonView { name: self.name@, age: self.age@, height: self.height@ }
    }
}

impl NameView {
    /// The first step before anything was typed.
    pub open spec fn blank() -> NameView {
        NameView { name: Seq::empty() }
    }

    /// The step is complete once the name is non-empty.
    pub open spec fn done(self) -> bool {
        self.name.len() > 0
    }

    /// Forward to the age step: the name is kept, the age starts empty.
    pub open spec fn to_age(self) -> AgeView {
        AgeView { name: self.name, age: Seq::empty() }
    }
}

impl AgeView {
    /// The step is complete once the age is non-empty. The name plays no part.
    pub open spec fn done(self) -> bool {
        self.age.len() > 0
    }

    /// Back to the name step: the name is kept, the age is dropped.
    pub open spec fn to_name(self) -> NameView {
        NameView { name: self.name }
    }

    /// Forward to the height step: name and age are kept, the height starts
    /// empty.
    pub open spec fn to_height(self) -> HeightView {
        HeightView { name: self.name, age: self.age, height: Seq::empty() }
    }
}

impl HeightView {
    /// The step is complete once the height is non-empty.
    pub open spec fn done(self) -> bool {
        self.height.len() > 0
    }

    /// Back to the age step: name and age are kept, the height is dropped.
    pub open spec fn to_age(self) -> AgeView {
        AgeView { name: self.name, age: self.age }
    }

    /// The finished record: all three fields, unchanged.
    pub open spec fn to_person(self) -> PersonView {
        PersonView { name: self.name, age: self.age, height: self.height }
    }
}

impl NameState {
    /// Whether the step is complete: the name holds at least one character.
    pub fn done(&self) -> (r: bool)
        ensures
            r == self@.done(),
    {
        !self.name.as_str().is_empty()
    }
}

impl AgeState {
    /// Whether the step is complete: the age holds at least one character.
    pub fn done(&self) -> (r: bool)
        ensures
            r == self@.done(),
    {
        !self.age.as_str().is_empty()
    }
}

impl HeightState {
    /// Whether the step is complete: the height holds at least one character.
    pub fn done(&self) -> (r: bool)
        ensures
            r == self@.done(),
    {
        !self.height.as_str().is_empty()
    }
}

impl Default for NameState {
    /// The first step with an empty name.
    fn default() -> (r: NameState)
        ensures
            r@ == NameView::blank(),
    {
        NameState { name: String::new() }
    }
}

impl Clone for NameState {
    fn clone(&self) -> (r: NameState)
        ensures
            r@ == self@,
    {
        NameState { name: self.name.clone() }
    }
}

impl Clone for AgeState {
    fn clone(&self) -> (r: AgeState)
        ensures
            r@ == self@,
    {
        AgeState { name: self.name.clone(), age: self.age.clone() }
    }
}

impl Clone for HeightState {
    fn clone(&self) -> (r: HeightState)
        ensures
            r@ == self@,
    {
        HeightState {
            name: self.name.clone(),
            age: self.age.clone(),
            height: self.height.clone(),
        }
    }
}

impl Clone for Person {
    fn clone(&self) -> (r: Person)
        ensures
            r@ == self@,
    {
        Person { name: self.name.clone(), age: self.age.clone(), height: self.height.clone() }
    }
}

impl PartialEq for NameState {
    fn eq(&self, other: &NameState) -> (r: bool) {
        self.name == other.name
    }
}

impl PartialEqSpecImpl for NameState {
    open spec fn obeys_eq_spec() -> bool {
        true
    }

    /// Two records are equal when their views are.
    open spec fn eq_spec(&self, other: &NameState) -> bool {
        self@ == other@
    }
}

impl Eq for NameState {

}

impl PartialEq for AgeState {
    fn eq(&self, other: &AgeState) -> (r: bool) {
        self.name == other.name && self.age == other.age
    }
}

impl PartialEqSpecImpl for AgeState {
    open spec fn obeys_eq_spec() -> bool {
        true
    }

    /// Two records are equal when their views are.
    open spec fn eq_spec(&self, other: &AgeState) -> bool {
        self@ == other@
    }
}

impl Eq for AgeState {

}

impl PartialEq for HeightState {
    fn eq(&self, other: &HeightState) -> (r: bool) {
        self.name == other.name && self.age == other.age && self.height == other.height
    }
}

impl PartialEqSpecImpl for HeightState {
    open spec fn obeys_eq_spec() -> bool {
        true
    }

    /// Two records are equal when their views are.
    open spec fn eq_spec(&self, other: &HeightState) -> bool {
        self@ == other@
    }
}

impl Eq for HeightState {

}

impl PartialEq for Person {
    fn eq(&self, other: &Person) -> (r: bool) {
        self.name == other.name && self.age == other.age && self.height == other.height
    }
}

impl PartialEqSpecImpl for Person {
    open spec fn obeys_eq_spec() -> bool {
        true
    }

    /// Two records are equal when their views are.
    open spec fn eq_spec(&self, other: &Person) -> bool {
        self@ == other@
    }
}

impl Eq for Person {

}

impl From<AgeState> for NameState {
    /// Back from the age step: keeps the name, drops the age.
    fn from(age_state: AgeState) -> (r: NameState)
        ensures
            r@ == age_state@.to_name(),
    {
        NameState { name: age_state.name }
    }
}

impl FromSpecImpl<AgeState> for NameState {
    open spec fn obeys_from_spec() -> bool {
        true
    }

    open spec fn from_spec(age_state: AgeState) -> NameState {
        NameState { name: age_state.name }
    }
}

impl From<NameState> for AgeState {
    /// Forward from the name step: keeps the name, starts with an empty age.
    fn from(name_state: NameState) -> (r: AgeState)
        ensures
            r@ == name_state@.to_age(),
    {
        AgeState { name: name_state.name, age: String::new() }
    }
}

impl FromSpecImpl<NameState> for AgeState {
    /// The result holds a fresh empty string, which no ghost expression can
    /// name, so `from` states its result on the view instead.
    open spec fn obeys_from_spec() -> bool {
        false
    }

    open spec fn from_spec(name_state: NameState) -> AgeState {
        arbitrary()
    }
}

impl From<AgeState> for HeightState {
    /// Forward from the age step: keeps name and age, starts with an empty
    /// height.
    fn from(age_state: AgeState) -> (r: HeightState)
        ensures
            r@ == age_state@.to_height(),
    {
        HeightState { name: age_state.name, age: age_state.age, height: String::new() }
    }
}

impl FromSpecImpl<AgeState> for HeightState {
    /// The result holds a fresh empty string, which no ghost expression can
    /// name, so `from` states its result on the view instead.
    open spec fn obeys_from_spec() -> bool {
        false
    }

    open spec fn from_spec(age_state: AgeState) -> HeightState {
        arbitrary()
    }
}

impl From<HeightState> for AgeState {
    /// Back from the height step: keeps name and age, drops the height.
    fn from(height_state: HeightState) -> (r: AgeState)
        ensures
            r@ == height_state@.to_age(),
    {
        AgeState { name: height_state.name, age: height_state.age }
    }
}

impl FromSpecImpl<HeightState> for AgeState {
    open spec fn obeys_from_spec() -> bool {
        true
    }

    open spec fn from_spec(height_state: HeightState) -> AgeState {
        AgeState { name: height_state.name, age: height_state.age }
    }
}

impl From<HeightState> for Person {
    /// The finished record: all three fields of the last step, unchanged.
    fn from(height_state: HeightState) -> (r: Person)
        ensures
            r@ == height_state@.to_person(),
    {
        Person { name: height_state.name, age: height_state.age, height: height_state.height }
    }
}

impl FromSpecImpl<HeightState> for Person {
    open spec fn obeys_from_spec() -> bool {
        true
    }

    open spec fn from_spec(height_state: HeightState) -> Person {
        Person { name: height_state.name, age: height_state.age, height: height_state.height }
    }
}

} // verus!
