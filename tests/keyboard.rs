use crab8::keyboard::keymap;
use crab8::{KeyAction, KeyState};

#[test]
fn new_keyboard_holds_nothing() {
    let keys = KeyState::new();
    for k in 0..=255u8 {
        assert!(!keys.is_key_down(k));
    }
    assert_eq!(keys.last_key_pressed(), None);
}

#[test]
fn press_and_release() {
    let mut keys = KeyState::new();
    keys.begin_poll();
    keys.handle_key(0xA, KeyAction::Press);
    assert!(keys.is_key_down(0xA));
    assert!(!keys.is_key_down(0xB));
    assert_eq!(keys.last_key_pressed(), Some(0xA));
    keys.handle_key(0xA, KeyAction::Release);
    assert!(!keys.is_key_down(0xA));
    assert_eq!(keys.last_key_pressed(), Some(0xA));
}

#[test]
fn only_a_new_press_is_recorded() {
    let mut keys = KeyState::new();
    keys.handle_key(3, KeyAction::Press);
    keys.begin_poll();
    assert_eq!(keys.last_key_pressed(), None);
    assert!(keys.is_key_down(3));
    keys.handle_key(3, KeyAction::Press);
    keys.handle_key(3, KeyAction::Repeat);
    assert_eq!(keys.last_key_pressed(), None);
    keys.handle_key(15, KeyAction::Press);
    assert_eq!(keys.last_key_pressed(), Some(15));
    keys.handle_key(0, KeyAction::Press);
    assert_eq!(keys.last_key_pressed(), Some(0));
    assert!(keys.is_key_down(0) && keys.is_key_down(3) && keys.is_key_down(15));
}

#[test]
fn bytes_past_the_last_key_are_never_held() {
    let mut keys = KeyState::new();
    for k in 0..16u8 {
        keys.handle_key(k, KeyAction::Press);
    }
    for k in 0..16u8 {
        assert!(keys.is_key_down(k));
    }
    assert!(!keys.is_key_down(16));
    assert!(!keys.is_key_down(255));
}

#[test]
fn keymap_covers_the_four_by_four_block() {
    let rows = ["1234", "qwer", "asdf", "zxcv"];
    let keys = [[0x1, 0x2, 0x3, 0xC], [0x4, 0x5, 0x6, 0xD], [0x7, 0x8, 0x9, 0xE], [0xA, 0x0, 0xB, 0xF]];
    for (row, expected) in rows.iter().zip(keys.iter()) {
        for (c, k) in row.chars().zip(expected.iter()) {
            assert_eq!(keymap(c), Some(*k));
        }
    }
    assert_eq!(keymap('5'), None);
    assert_eq!(keymap('Q'), None);
    assert_eq!(keymap(' '), None);
}
