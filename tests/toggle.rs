use details_toggle::element::{is_watched_attribute, AttributeMutation, HTMLDetailsElement};
use details_toggle::window::{ToggleEventRunnable, Trusted, Window};

fn fired(window: &Window) -> Vec<(Trusted, u32)> {
    window
        .fired_events()
        .iter()
        .map(|e| (e.target(), e.toggle_number()))
        .collect()
}

fn counter(window: &Window, t: Trusted) -> u32 {
    t.root(window).expect("element is live").toggle_count()
}

#[test]
fn new_element_starts_closed_at_zero() {
    let mut w = Window::new();
    let t = HTMLDetailsElement::new(&mut w);
    let e = t.root(&w).unwrap();
    assert!(!e.open());
    assert_eq!(e.toggle_count(), 0);
    assert!(e.check_toggle_count(0));
    assert!(!e.check_toggle_count(1));
    assert_eq!(w.pending_task_count(), 0);
}

#[test]
fn two_mutations_fire_only_the_latest() {
    let mut w = Window::new();
    let t = HTMLDetailsElement::new(&mut w);
    w.set_open(t, true);
    assert_eq!(counter(&w, t), 1);
    assert!(t.root(&w).unwrap().open());
    w.set_open(t, false);
    assert_eq!(counter(&w, t), 2);
    assert!(!t.root(&w).unwrap().open());
    assert_eq!(w.pending_task_count(), 2);
    w.run_pending_tasks();
    assert_eq!(fired(&w), vec![(t, 2)]);
    assert_eq!(w.pending_task_count(), 0);
}

#[test]
fn destroyed_element_fires_nothing() {
    let mut w = Window::new();
    let t = HTMLDetailsElement::new(&mut w);
    w.set_open(t, true);
    assert_eq!(counter(&w, t), 1);
    w.destroy(t);
    assert!(t.root(&w).is_none());
    w.run_pending_tasks();
    assert!(fired(&w).is_empty());
    assert_eq!(w.pending_task_count(), 0);
}

#[test]
fn burst_of_mutations_fires_once_with_final_count() {
    let mut w = Window::new();
    let t = HTMLDetailsElement::new(&mut w);
    for i in 0..7u32 {
        w.set_open(t, i % 2 == 0);
    }
    assert_eq!(w.pending_task_count(), 7);
    w.run_pending_tasks();
    assert_eq!(fired(&w), vec![(t, 7)]);
}

#[test]
fn setting_unchanged_value_still_counts_and_schedules() {
    let mut w = Window::new();
    let t = HTMLDetailsElement::new(&mut w);
    w.set_open(t, true);
    w.set_open(t, true);
    assert_eq!(counter(&w, t), 2);
    assert_eq!(w.pending_task_count(), 2);
    w.set_open(t, false);
    w.set_open(t, false);
    assert_eq!(counter(&w, t), 4);
    assert_eq!(w.pending_task_count(), 4);
    w.run_pending_tasks();
    assert_eq!(fired(&w), vec![(t, 4)]);
}

#[test]
fn check_toggle_count_matches_number_of_mutations() {
    let mut w = Window::new();
    let t = HTMLDetailsElement::new(&mut w);
    for n in 0..5u32 {
        let e = t.root(&w).unwrap();
        assert!(e.check_toggle_count(n));
        assert!(!e.check_toggle_count(n + 1));
        w.attribute_mutated(t, "open", AttributeMutation::Assigned);
    }
    assert!(t.root(&w).unwrap().check_toggle_count(5));
}

#[test]
fn counter_wraps_to_zero_after_maximum() {
    let mut e = HTMLDetailsElement::with_state(true, u32::MAX - 1);
    assert_eq!(e.attribute_mutated("open", AttributeMutation::Assigned), Some(u32::MAX));
    assert!(e.check_toggle_count(u32::MAX));
    assert_eq!(e.attribute_mutated("open", AttributeMutation::Removed), Some(0));
    assert_eq!(e.toggle_count(), 0);
    assert!(e.check_toggle_count(0));
    assert!(!e.check_toggle_count(u32::MAX));
}

#[test]
fn wrapped_notifications_are_told_apart() {
    let mut w = Window::new();
    let t = HTMLDetailsElement::new(&mut w);
    // A notification captured at the maximum value goes stale once the
    // counter has wrapped to 0; one captured at 0 is current.
    ToggleEventRunnable::send(&mut w, t, u32::MAX);
    ToggleEventRunnable::send(&mut w, t, 0);
    w.run_pending_tasks();
    assert_eq!(fired(&w), vec![(t, 0)]);
}

#[test]
fn other_attributes_are_ignored() {
    let mut w = Window::new();
    let t = HTMLDetailsElement::new(&mut w);
    w.attribute_mutated(t, "title", AttributeMutation::Assigned);
    w.attribute_mutated(t, "ope", AttributeMutation::Assigned);
    w.attribute_mutated(t, "opens", AttributeMutation::Removed);
    w.attribute_mutated(t, "OPEN", AttributeMutation::Assigned);
    assert_eq!(counter(&w, t), 0);
    assert_eq!(w.pending_task_count(), 0);
    let mut e = HTMLDetailsElement::new_inherited();
    assert_eq!(e.attribute_mutated("class", AttributeMutation::Removed), None);
    assert_eq!(e.toggle_count(), 0);
}

#[test]
fn watched_attribute_name() {
    assert!(is_watched_attribute("open"));
    assert!(!is_watched_attribute(""));
    assert!(!is_watched_attribute("opem"));
    assert!(!is_watched_attribute("xpen"));
}

#[test]
fn removal_counts_as_mutation() {
    let mut w = Window::new();
    let t = HTMLDetailsElement::new(&mut w);
    w.attribute_mutated(t, "open", AttributeMutation::Removed);
    assert_eq!(counter(&w, t), 1);
    w.run_pending_tasks();
    assert_eq!(fired(&w), vec![(t, 1)]);
}

#[test]
fn closed_task_source_loses_notifications() {
    let mut w = Window::new();
    let t = HTMLDetailsElement::new(&mut w);
    w.close_task_source();
    w.set_open(t, true);
    assert_eq!(counter(&w, t), 1);
    assert_eq!(w.pending_task_count(), 0);
    w.run_pending_tasks();
    assert!(fired(&w).is_empty());
}

#[test]
fn elements_are_notified_independently() {
    let mut w = Window::new();
    let a = HTMLDetailsElement::new(&mut w);
    let b = HTMLDetailsElement::new(&mut w);
    w.set_open(a, true);
    w.set_open(b, true);
    w.set_open(a, false);
    w.destroy(b);
    w.destroy(b);
    w.run_pending_tasks();
    assert_eq!(fired(&w), vec![(a, 2)]);
    w.set_open(a, true);
    w.run_pending_tasks();
    assert_eq!(fired(&w), vec![(a, 2), (a, 3)]);
}

#[test]
fn handler_reports_whether_it_fired() {
    let mut w = Window::new();
    let t = HTMLDetailsElement::new(&mut w);
    w.set_open(t, true);
    ToggleEventRunnable::send(&mut w, t, 1);
    w.run_pending_tasks();
    // Both queued notifications captured 1, so both fire.
    assert_eq!(fired(&w), vec![(t, 1), (t, 1)]);
}
