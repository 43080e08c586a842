use audio_plugins::utils::copy_cstr::copy_cstr;
use audio_plugins::utils::decibel_conversion::DecibelConversion;
use audio_plugins::utils::text::str_eq;
use audio_plugins::utils::tuples::{FillFromLeft, FillFromRight, Reverse};

#[test]
fn copy_cstr_terminates() {
    let mut buf = [0i8; 8];
    copy_cstr(&mut buf, b"hello");
    assert_eq!(buf[5], 0);
    assert_eq!(&buf[..5], &[104i8, 101, 108, 108, 111]);
}

#[test]
fn copy_cstr_truncates_and_keeps_the_rest() {
    let mut buf = [7i8; 4];
    copy_cstr(&mut buf, b"hello");
    assert_eq!(buf, [104, 101, 108, 0]);

    let mut buf = [7i8; 6];
    copy_cstr(&mut buf, b"ab");
    assert_eq!(buf, [97, 98, 0, 7, 7, 7]);

    let mut one = [5i8; 1];
    copy_cstr(&mut one, b"xyz");
    assert_eq!(one, [0]);

    let mut high = [0i8; 3];
    copy_cstr(&mut high, &[0xc3, 0xa9]);
    assert_eq!(high, [-61, -87, 0]);
}

#[test]
fn tuple_routing() {
    assert_eq!((1, 'a').reverse(), ('a', 1));
    assert_eq!((1, 2).reverse().reverse(), (1, 2));
    assert_eq!((3, 4).fill_from_left(), (3, 3));
    assert_eq!((3, 4).fill_from_right(), (4, 4));
    assert_eq!((0.5f64, -0.25f64).reverse().fill_from_left(), (-0.25, -0.25));
}

#[test]
fn decibel_factors() {
    assert_eq!(DecibelConversion::Amplitude.factor(), 20);
    assert_eq!(DecibelConversion::Power.factor(), 10);
}

#[test]
fn string_equality() {
    assert!(str_eq("chu-moy", "chu-moy"));
    assert!(!str_eq("chu-moy", "chu-moz"));
    assert!(!str_eq("a", "ab"));
    assert!(str_eq("", ""));
    assert!(str_eq("é", "é"));
}

use audio_plugins::gui::{drag_move_action, dropdown_display, DragMoveAction, DRAG_THROTTLE_NS};

#[test]
fn dropdown_text_choice() {
    let options = vec!["Default".to_string(), "Chu Moy".to_string()];
    assert_eq!(dropdown_display(&options, Some(1), None), "Chu Moy");
    assert_eq!(dropdown_display(&options, Some(1), Some("Chu Moy *".to_string())), "Chu Moy *");
    assert_eq!(dropdown_display(&options, Some(5), None), "–");
    assert_eq!(dropdown_display(&options, None, None), "–");
}

#[test]
fn drag_moves_are_throttled() {
    assert_eq!(drag_move_action(false, true, None, 0), DragMoveAction::Ignore);
    assert_eq!(drag_move_action(true, false, Some(0), 10), DragMoveAction::End);
    assert_eq!(drag_move_action(true, true, None, 0), DragMoveAction::Dispatch);
    assert_eq!(drag_move_action(true, true, Some(100), 100 + DRAG_THROTTLE_NS - 1), DragMoveAction::Skip);
    assert_eq!(drag_move_action(true, true, Some(100), 100 + DRAG_THROTTLE_NS), DragMoveAction::Dispatch);
    assert_eq!(drag_move_action(true, true, Some(100), 50), DragMoveAction::Skip);
}
