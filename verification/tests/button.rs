use m5stickc::button::{Button, ButtonState};

#[test]
fn new_button_takes_the_first_sample_as_accepted() {
    let b = Button::new(true, false, 10, 1000);
    assert!(b.pressed());
    assert_eq!(
        b.snapshot(),
        ButtonState {
            state: true,
            last_state: true,
            changed: false,
            time: 1000,
            last_time: 1000,
            last_change: 1000,
            press_time: 1000,
        }
    );
}

#[test]
fn inverted_button_is_pressed_when_low() {
    assert!(Button::new(false, true, 10, 0).pressed());
    assert!(!Button::new(true, true, 10, 0).pressed());
    assert!(!Button::new(false, false, 10, 0).pressed());
}

#[test]
fn flip_inside_the_window_is_rejected() {
    let mut b = Button::new(false, false, 10, 100);
    assert!(!b.read(true, 105));
    assert!(!b.pressed());
    let s = b.snapshot();
    assert!(!s.changed);
    assert_eq!(s.last_change, 100);
    assert_eq!(s.time, 105);
    assert_eq!(s.last_time, 100);
    assert_eq!(s.press_time, 100);
}

#[test]
fn flip_after_the_window_is_accepted() {
    let mut b = Button::new(false, false, 10, 100);
    assert!(!b.read(true, 105));
    assert!(b.read(true, 115));
    let s = b.snapshot();
    assert!(s.state);
    assert!(!s.last_state);
    assert!(s.changed);
    assert_eq!(s.last_change, 115);
    assert_eq!(s.press_time, 115);
    assert_eq!(s.time, 115);
    assert_eq!(s.last_time, 105);
}

#[test]
fn window_edge_counts_as_elapsed() {
    let mut b = Button::new(false, false, 10, 100);
    assert!(!b.read(true, 109));
    assert!(b.read(true, 110));
}

#[test]
fn window_restarts_at_each_accepted_change() {
    let mut b = Button::new(false, false, 10, 0);
    assert!(b.read(true, 20));
    assert!(b.read(false, 25));
    assert!(!b.snapshot().changed);
    assert!(!b.read(false, 30));
    assert!(b.snapshot().changed);
    assert_eq!(b.snapshot().last_change, 30);
    assert_eq!(b.snapshot().press_time, 20);
}

#[test]
fn steady_sample_changes_nothing_but_the_clock() {
    let mut b = Button::new(true, false, 10, 0);
    assert!(b.read(true, 50));
    let s = b.snapshot();
    assert!(!s.changed);
    assert_eq!(s.last_change, 0);
    assert_eq!(s.press_time, 0);
    assert_eq!(s.time, 50);
}

#[test]
fn release_does_not_stamp_a_press() {
    let mut b = Button::new(true, false, 10, 0);
    assert!(!b.read(false, 40));
    let s = b.snapshot();
    assert!(s.changed);
    assert_eq!(s.last_change, 40);
    assert_eq!(s.press_time, 0);
}

#[test]
fn zero_window_accepts_every_sample() {
    let mut b = Button::new(false, false, 0, 7);
    assert!(b.read(true, 7));
    assert!(!b.read(false, 7));
}
