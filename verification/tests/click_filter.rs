use maglev::click_filter::{ClickFilter, ClickState};

fn feed(f: &mut ClickFilter, samples: &[bool]) -> Vec<bool> {
    samples.iter().map(|&s| f.update(s)).collect()
}

#[test]
fn new_filter_is_released() {
    let f = ClickFilter::new();
    assert_eq!(f.state(), ClickState::Release);
}

#[test]
fn press_twice_then_release_clicks_once() {
    let mut f = ClickFilter::new();
    assert_eq!(feed(&mut f, &[true, true, false]), vec![false, false, true]);
    assert_eq!(f.state(), ClickState::Release);
}

#[test]
fn single_sample_press_does_not_click() {
    let mut f = ClickFilter::new();
    assert_eq!(feed(&mut f, &[true, false, false]), vec![false, false, false]);
    assert_eq!(f.state(), ClickState::Trig(false));
}

#[test]
fn bounce_after_first_press_still_arms() {
    let mut f = ClickFilter::new();
    assert_eq!(feed(&mut f, &[true, false, true, false]), vec![false, false, false, true]);
}

#[test]
fn held_button_never_clicks() {
    let mut f = ClickFilter::new();
    assert!(feed(&mut f, &[true; 10]).iter().all(|c| !c));
    assert_eq!(f.state(), ClickState::Trig(true));
}

#[test]
fn no_two_clicks_in_a_row() {
    let mut f = ClickFilter::new();
    let out = feed(&mut f, &[true, true, false, false, true, true, false]);
    assert_eq!(out, vec![false, false, true, false, false, false, true]);
}

#[test]
fn released_button_stays_released() {
    let mut f = ClickFilter::new();
    assert_eq!(feed(&mut f, &[false, false]), vec![false, false]);
    assert_eq!(f.state(), ClickState::Release);
}

#[test]
fn each_click_needs_two_new_presses() {
    let mut f = ClickFilter::new();
    // one press after a click is not enough for the next click
    let out = feed(&mut f, &[true, true, false, true, false, false]);
    assert_eq!(out, vec![false, false, true, false, false, false]);
    // a second press arms it again
    assert_eq!(feed(&mut f, &[true, false]), vec![false, true]);
}
