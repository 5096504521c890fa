use wizard::{AgeState, HeightState, NameState, Outcome, Person, Signal, Wizard};

fn s(text: &str) -> String {
    text.to_string()
}

fn at_name(name: &str) -> Wizard {
    Wizard::Name(NameState { name: s(name) })
}

fn at_age(name: &str, age: &str) -> Wizard {
    Wizard::Age(AgeState { name: s(name), age: s(age) })
}

fn at_height(name: &str, age: &str, height: &str) -> Wizard {
    Wizard::Height(HeightState { name: s(name), age: s(age), height: s(height) })
}

fn ann() -> Person {
    Person { name: s("Ann"), age: s("30"), height: s("170") }
}

#[test]
fn new_wizard_is_at_the_name_step_with_an_empty_name() {
    let w = Wizard::new();
    assert_eq!(w, at_name(""));
    assert!(!w.done());
}

#[test]
fn wizard_done_is_that_of_the_active_step() {
    assert!(!at_name("").done());
    assert!(at_name("Ann").done());
    assert!(!at_age("Ann", "").done());
    assert!(at_age("Ann", "30").done());
    assert!(!at_height("Ann", "30", "").done());
    assert!(at_height("Ann", "30", "170").done());
}

#[test]
fn scenario_name_entered_then_next_reaches_age() {
    let mut w = Wizard::new();
    match &mut w {
        Wizard::Name(state) => state.name = s("Ann"),
        _ => unreachable!(),
    }
    let emitted = w.next();
    assert_eq!(emitted, None);
    assert_eq!(w, at_age("Ann", ""));
}

#[test]
fn scenario_age_empty_is_ignored_then_age_entered_reaches_height() {
    let mut w = at_age("Ann", "");
    assert_eq!(w.next(), None);
    assert_eq!(w, at_age("Ann", ""));
    match &mut w {
        Wizard::Age(state) => state.age = s("30"),
        _ => unreachable!(),
    }
    assert_eq!(w.next(), None);
    assert_eq!(w, at_height("Ann", "30", ""));
}

#[test]
fn scenario_next_at_complete_height_emits_the_person() {
    let mut w = at_height("Ann", "30", "170");
    let emitted = w.next();
    assert_eq!(emitted, Some(ann()));
    assert_eq!(w, at_height("Ann", "30", "170"));
}

#[test]
fn scenario_back_from_height_drops_the_height() {
    let mut w = at_height("Ann", "30", "170");
    w.back();
    assert_eq!(w, at_age("Ann", "30"));
}

#[test]
fn back_from_age_drops_the_age() {
    let mut w = at_age("Ann", "30");
    w.back();
    assert_eq!(w, at_name("Ann"));
}

#[test]
fn back_asks_for_no_complete_step() {
    let mut w = at_height("Ann", "30", "");
    w.back();
    assert_eq!(w, at_age("Ann", "30"));
    let mut w = at_age("Ann", "");
    w.back();
    assert_eq!(w, at_name("Ann"));
}

#[test]
fn back_at_name_any_number_of_times_changes_nothing() {
    let mut w = at_name("Ann");
    let mut i: u32 = 0;
    while i < 5 {
        w.back();
        assert_eq!(w, at_name("Ann"));
        i += 1;
    }
    let mut w = Wizard::new();
    w.back();
    w.back();
    assert_eq!(w, Wizard::new());
}

#[test]
fn back_twice_from_height_reaches_name() {
    let mut w = at_height("Ann", "30", "170");
    w.back();
    w.back();
    assert_eq!(w, at_name("Ann"));
    w.back();
    assert_eq!(w, at_name("Ann"));
}

#[test]
fn next_at_an_incomplete_step_changes_nothing() {
    let mut w = at_name("");
    assert_eq!(w.next(), None);
    assert_eq!(w, at_name(""));
    let mut w = at_age("Ann", "");
    assert_eq!(w.next(), None);
    assert_eq!(w, at_age("Ann", ""));
    let mut w = at_height("Ann", "30", "");
    assert_eq!(w.next(), None);
    assert_eq!(w, at_height("Ann", "30", ""));
}

#[test]
fn next_looks_at_the_answer_of_the_active_step_only() {
    let mut w = at_age("", "30");
    assert_eq!(w.next(), None);
    assert_eq!(w, at_height("", "30", ""));
    let mut w = at_height("", "", "170");
    assert_eq!(w.next(), Some(Person { name: s(""), age: s(""), height: s("170") }));
}

#[test]
fn next_at_complete_height_can_be_repeated() {
    let mut w = at_height("Ann", "30", "170");
    assert_eq!(w.next(), Some(ann()));
    assert_eq!(w.next(), Some(ann()));
    assert_eq!(w, at_height("Ann", "30", "170"));
}

#[test]
fn back_undoes_next() {
    let mut w = at_name("Ann");
    w.next();
    w.back();
    assert_eq!(w, at_name("Ann"));
    let mut w = at_age("Ann", "30");
    w.next();
    w.back();
    assert_eq!(w, at_age("Ann", "30"));
}

#[test]
fn next_after_back_starts_the_dropped_answer_empty() {
    let mut w = at_height("Ann", "30", "170");
    w.back();
    assert_eq!(w.next(), None);
    assert_eq!(w, at_height("Ann", "30", ""));
}

#[test]
fn full_walk_through_the_wizard() {
    let mut w = Wizard::new();
    assert_eq!(w.handle(Signal::Next), None);
    match &mut w {
        Wizard::Name(state) => state.name.push_str("Ann"),
        _ => unreachable!(),
    }
    assert_eq!(w.handle(Signal::Next), Some(Outcome::Advanced));
    match &mut w {
        Wizard::Age(state) => state.age.push_str("30"),
        _ => unreachable!(),
    }
    assert_eq!(w.handle(Signal::Next), Some(Outcome::Advanced));
    assert_eq!(w.handle(Signal::Next), None);
    match &mut w {
        Wizard::Height(state) => state.height.push_str("170"),
        _ => unreachable!(),
    }
    assert_eq!(w.handle(Signal::Next), Some(Outcome::Finished(ann())));
    assert_eq!(w, at_height("Ann", "30", "170"));
}

#[test]
fn handle_next_advances_from_a_complete_step() {
    let mut w = at_name("Ann");
    assert_eq!(w.handle(Signal::Next), Some(Outcome::Advanced));
    assert_eq!(w, at_age("Ann", ""));
    let mut w = at_age("Ann", "30");
    assert_eq!(w.handle(Signal::Next), Some(Outcome::Advanced));
    assert_eq!(w, at_height("Ann", "30", ""));
}

#[test]
fn handle_next_is_ignored_at_an_incomplete_step() {
    let mut w = at_name("");
    assert_eq!(w.handle(Signal::Next), None);
    assert_eq!(w, at_name(""));
    let mut w = at_age("Ann", "");
    assert_eq!(w.handle(Signal::Next), None);
    assert_eq!(w, at_age("Ann", ""));
    let mut w = at_height("Ann", "30", "");
    assert_eq!(w.handle(Signal::Next), None);
    assert_eq!(w, at_height("Ann", "30", ""));
}

#[test]
fn handle_next_finishes_at_complete_height() {
    let mut w = at_height("Ann", "30", "170");
    assert_eq!(w.handle(Signal::Next), Some(Outcome::Finished(ann())));
    assert_eq!(w, at_height("Ann", "30", "170"));
}

#[test]
fn handle_back_regresses_or_is_ignored_at_name() {
    let mut w = at_height("Ann", "30", "170");
    assert_eq!(w.handle(Signal::Back), Some(Outcome::Regressed));
    assert_eq!(w, at_age("Ann", "30"));
    assert_eq!(w.handle(Signal::Back), Some(Outcome::Regressed));
    assert_eq!(w, at_name("Ann"));
    assert_eq!(w.handle(Signal::Back), None);
    assert_eq!(w, at_name("Ann"));
}

#[test]
fn handle_quit_cancels_and_leaves_the_wizard_alone() {
    let mut w = at_name("");
    assert_eq!(w.handle(Signal::Quit), Some(Outcome::Cancelled));
    assert_eq!(w, at_name(""));
    let mut w = at_age("Ann", "30");
    assert_eq!(w.handle(Signal::Quit), Some(Outcome::Cancelled));
    assert_eq!(w, at_age("Ann", "30"));
    let mut w = at_height("Ann", "30", "170");
    assert_eq!(w.handle(Signal::Quit), Some(Outcome::Cancelled));
    assert_eq!(w, at_height("Ann", "30", "170"));
}

#[test]
fn quit_reports_cancellation() {
    let w = at_age("Ann", "");
    assert_eq!(w.quit(), Outcome::Cancelled);
    assert_eq!(w, at_age("Ann", ""));
}

#[test]
fn name_survives_every_signal() {
    let signals = vec![Signal::Next, Signal::Back, Signal::Quit, Signal::Next, Signal::Next, Signal::Back];
    let mut w = at_age("Ann", "30");
    for signal in signals {
        w.handle(signal);
        let name = match &w {
            Wizard::Name(state) => state.name.clone(),
            Wizard::Age(state) => state.name.clone(),
            Wizard::Height(state) => state.name.clone(),
        };
        assert_eq!(name, "Ann");
    }
}

#[test]
fn wizards_at_different_steps_differ() {
    assert_ne!(at_name("Ann"), at_age("Ann", ""));
    assert_ne!(at_age("Ann", "30"), at_height("Ann", "30", ""));
    assert_ne!(at_name(""), at_height("", "", ""));
    assert_ne!(at_name("Ann"), at_name("Amy"));
}

#[test]
fn wizard_clone_is_equal_and_independent() {
    let w = at_age("Ann", "30");
    let mut copy = w.clone();
    assert_eq!(copy, w);
    copy.next();
    assert_eq!(w, at_age("Ann", "30"));
    assert_eq!(copy, at_height("Ann", "30", ""));
}

#[test]
fn outcomes_compare_by_kind_and_record() {
    assert_eq!(Outcome::Finished(ann()), Outcome::Finished(ann()).clone());
    assert_ne!(Outcome::Finished(ann()), Outcome::Finished(Person { name: s("Amy"), age: s("30"), height: s("170") }));
    assert_ne!(Outcome::Advanced, Outcome::Regressed);
    assert_ne!(Outcome::Cancelled, Outcome::Advanced);
    assert_ne!(Outcome::Finished(ann()), Outcome::Cancelled);
    assert_eq!(Signal::Next, Signal::Next);
    assert_ne!(Signal::Next, Signal::Back);
}
