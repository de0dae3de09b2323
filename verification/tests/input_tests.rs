use breakout_core::input::Interaction;
use breakout_core::input::KeyEvent;
use breakout_core::input::Rgb;
use breakout_core::input::any_clicked;
use breakout_core::input::button_fill;
use breakout_core::input::escape_pressed;

#[test]
fn empty_batch_has_no_escape_press() {
    assert!(!escape_pressed(&vec![]));
}

#[test]
fn escape_release_does_not_count() {
    let batch = vec![KeyEvent { pressed: false, escape: true }];
    assert!(!escape_pressed(&batch));
}

#[test]
fn other_key_press_does_not_count() {
    let batch = vec![
        KeyEvent { pressed: true, escape: false },
        KeyEvent { pressed: false, escape: true },
    ];
    assert!(!escape_pressed(&batch));
}

#[test]
fn escape_press_found_anywhere_in_batch() {
    let batch = vec![
        KeyEvent { pressed: true, escape: false },
        KeyEvent { pressed: false, escape: true },
        KeyEvent { pressed: true, escape: true },
    ];
    assert!(escape_pressed(&batch));
}

#[test]
fn no_widget_clicked() {
    assert!(!any_clicked(&vec![]));
    assert!(!any_clicked(&vec![Interaction::Idle, Interaction::Hovered]));
}

#[test]
fn one_widget_clicked_is_enough() {
    let batch = vec![Interaction::Idle, Interaction::Clicked, Interaction::Hovered];
    assert!(any_clicked(&batch));
}

#[test]
fn button_fill_colors() {
    assert_eq!(button_fill(Interaction::Clicked), Rgb { r: 750, g: 750, b: 750 });
    assert_eq!(button_fill(Interaction::Hovered), Rgb { r: 800, g: 800, b: 800 });
    assert_eq!(button_fill(Interaction::Idle), Rgb { r: 1000, g: 1000, b: 1000 });
}
