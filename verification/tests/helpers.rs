//! The pure helpers around the hook core: name parsing, device path
//! de-duplication, and the per-platform action parameter tables.

use mouce::common::{get_mouse_button, get_scroll_direction, MouseButton, ScrollDirection};
use mouce::darwin::{
    press_event_params, release_event_params, scroll_event_wheels, scroll_step_distance,
};
use mouce::nix::{
    padded_device_name, uinput_button_code, uinput_scroll_params, unique_device_paths,
    BTN_LEFT, BTN_MIDDLE, BTN_RIGHT, REL_HWHEEL, REL_WHEEL, UINPUT_MAX_NAME_SIZE,
};
use mouce::windows::{button_press_flag, button_release_flag, scroll_input_params};
use mouce::x11::{x11_button_number, x11_scroll_button};

#[test]
fn button_names_parse() {
    assert_eq!(get_mouse_button("left"), Some(MouseButton::Left));
    assert_eq!(get_mouse_button("right"), Some(MouseButton::Right));
    assert_eq!(get_mouse_button("middle"), Some(MouseButton::Middle));
    assert_eq!(get_mouse_button("Left"), None);
    assert_eq!(get_mouse_button(""), None);
    assert_eq!(get_mouse_button("wheel"), None);
}

#[test]
fn direction_names_parse() {
    assert_eq!(get_scroll_direction("up"), Some(ScrollDirection::Up));
    assert_eq!(get_scroll_direction("down"), Some(ScrollDirection::Down));
    assert_eq!(get_scroll_direction("right"), Some(ScrollDirection::Right));
    assert_eq!(get_scroll_direction("left"), Some(ScrollDirection::Left));
    assert_eq!(get_scroll_direction("Up"), None);
    assert_eq!(get_scroll_direction("sideways"), None);
}

#[test]
fn duplicate_device_paths_are_suppressed() {
    let paths = vec![
        String::from("/dev/input/event3"),
        String::from("/dev/input/event7"),
        String::from("/dev/input/event3"),
        String::from("/dev/input/event7"),
        String::from("/dev/input/event9"),
    ];
    let unique = unique_device_paths(&paths);
    assert_eq!(unique.len(), 3);
    for p in ["/dev/input/event3", "/dev/input/event7", "/dev/input/event9"] {
        assert!(unique.iter().any(|u| u == p));
    }
    for i in 0..unique.len() {
        for j in (i + 1)..unique.len() {
            assert_ne!(unique[i], unique[j]);
        }
    }
}

#[test]
fn empty_path_list_stays_empty() {
    let unique = unique_device_paths(&Vec::new());
    assert!(unique.is_empty());
}

#[test]
fn device_name_is_padded_with_zeros() {
    let name: Vec<u8> = b"mouce-library-fake-mouse".to_vec();
    let padded = padded_device_name(&name);
    assert_eq!(padded.len(), UINPUT_MAX_NAME_SIZE);
    assert_eq!(&padded[..name.len()], &name[..]);
    assert!(padded[name.len()..].iter().all(|b| *b == 0));
}

#[test]
fn uinput_scroll_parameters() {
    assert_eq!(uinput_scroll_params(&ScrollDirection::Up, 5), (REL_WHEEL, 5));
    assert_eq!(uinput_scroll_params(&ScrollDirection::Down, 5), (REL_WHEEL, -5));
    assert_eq!(uinput_scroll_params(&ScrollDirection::Left, 2), (REL_HWHEEL, -2));
    assert_eq!(uinput_scroll_params(&ScrollDirection::Right, 2), (REL_HWHEEL, 2));
}

#[test]
fn uinput_button_codes() {
    assert_eq!(uinput_button_code(&MouseButton::Left), BTN_LEFT);
    assert_eq!(uinput_button_code(&MouseButton::Right), BTN_RIGHT);
    assert_eq!(uinput_button_code(&MouseButton::Middle), BTN_MIDDLE);
}

#[test]
fn windows_button_flags() {
    assert_eq!(button_press_flag(&MouseButton::Left), 0x0002);
    assert_eq!(button_release_flag(&MouseButton::Left), 0x0004);
    assert_eq!(button_press_flag(&MouseButton::Right), 0x0008);
    assert_eq!(button_release_flag(&MouseButton::Right), 0x0010);
    assert_eq!(button_press_flag(&MouseButton::Middle), 0x0020);
    assert_eq!(button_release_flag(&MouseButton::Middle), 0x0040);
}

#[test]
fn windows_scroll_parameters() {
    assert_eq!(scroll_input_params(&ScrollDirection::Up), (0x0800, 150));
    assert_eq!(scroll_input_params(&ScrollDirection::Down), (0x0800, -150));
    assert_eq!(scroll_input_params(&ScrollDirection::Right), (0x1000, 150));
    assert_eq!(scroll_input_params(&ScrollDirection::Left), (0x1000, -150));
}

#[test]
fn x11_button_numbers() {
    assert_eq!(x11_button_number(&MouseButton::Left), 1);
    assert_eq!(x11_button_number(&MouseButton::Middle), 2);
    assert_eq!(x11_button_number(&MouseButton::Right), 3);
    assert_eq!(x11_scroll_button(&ScrollDirection::Up), 4);
    assert_eq!(x11_scroll_button(&ScrollDirection::Down), 5);
    assert_eq!(x11_scroll_button(&ScrollDirection::Left), 6);
    assert_eq!(x11_scroll_button(&ScrollDirection::Right), 7);
}

#[test]
fn darwin_event_parameters() {
    assert_eq!(press_event_params(&MouseButton::Left), (1, 0));
    assert_eq!(release_event_params(&MouseButton::Left), (2, 0));
    assert_eq!(press_event_params(&MouseButton::Right), (3, 1));
    assert_eq!(release_event_params(&MouseButton::Right), (4, 1));
    assert_eq!(press_event_params(&MouseButton::Middle), (25, 2));
    assert_eq!(release_event_params(&MouseButton::Middle), (26, 2));
    assert_eq!(scroll_step_distance(&ScrollDirection::Up), 5);
    assert_eq!(scroll_step_distance(&ScrollDirection::Down), -5);
    assert_eq!(scroll_event_wheels(&ScrollDirection::Up, 5), (5, 0));
    assert_eq!(scroll_event_wheels(&ScrollDirection::Left, -5), (0, -5));
}
