use conpty::console::{
    echo_mode, raw_input_mode, raw_output_mode, select_console_size, virtual_terminal_mode,
    window_size, DEFAULT_COLUMNS, DEFAULT_ROWS,
};
use windows::Win32::System::Console::{COORD, SMALL_RECT};

fn rect(left: i16, top: i16, right: i16, bottom: i16) -> SMALL_RECT {
    SMALL_RECT { Left: left, Top: top, Right: right, Bottom: bottom }
}

#[test]
fn window_size_counts_both_bounds() {
    let size = window_size(&rect(0, 0, 119, 29)).unwrap();
    assert_eq!((size.X, size.Y), (120, 30));

    let size = window_size(&rect(10, 300, 10, 300)).unwrap();
    assert_eq!((size.X, size.Y), (1, 1));
}

#[test]
fn window_size_of_an_empty_rectangle_is_none() {
    assert!(window_size(&rect(5, 0, 4, 10)).is_none());
    assert!(window_size(&rect(0, 5, 10, 3)).is_none());
}

#[test]
fn window_size_too_large_is_none() {
    assert!(window_size(&rect(i16::MIN, 0, i16::MAX, 10)).is_none());
    assert!(window_size(&rect(0, -1, 10, i16::MAX)).is_none());
    let size = window_size(&rect(0, 0, i16::MAX - 1, 0)).unwrap();
    assert_eq!((size.X, size.Y), (i16::MAX, 1));
}

#[test]
fn requested_size_wins() {
    let requested = COORD { X: 100, Y: 40 };
    let inherited = COORD { X: 120, Y: 30 };
    assert_eq!(select_console_size(Some(requested), Some(inherited)), requested);
    assert_eq!(select_console_size(Some(requested), None), requested);
}

#[test]
fn inherited_size_is_used_when_none_requested() {
    let inherited = COORD { X: 120, Y: 30 };
    assert_eq!(select_console_size(None, Some(inherited)), inherited);
}

#[test]
fn default_size_is_eighty_by_twenty_five() {
    let size = select_console_size(None, None);
    assert_eq!((size.X, size.Y), (80, 25));
    assert_eq!((DEFAULT_COLUMNS, DEFAULT_ROWS), (80, 25));
}

#[test]
fn raw_input_mode_of_a_cooked_console() {
    // processed, line and echo input, mouse and window input on
    assert_eq!(raw_input_mode(0x1F), 0x2E8);
    assert_eq!(raw_input_mode(0), 0x2E0);
    assert_eq!(raw_input_mode(u32::MAX), !0x17u32);
}

#[test]
fn raw_output_mode_disables_auto_return() {
    assert_eq!(raw_output_mode(0x3), 0xB);
    assert_eq!(raw_output_mode(0x8), 0x8);
}

#[test]
fn virtual_terminal_mode_adds_processing() {
    assert_eq!(virtual_terminal_mode(0x3), 0x7);
    assert_eq!(virtual_terminal_mode(0x4), 0x4);
}

#[test]
fn echo_on_adds_echo_and_line_input() {
    assert_eq!(echo_mode(0x1, true), 0x7);
}

#[test]
fn echo_off_keeps_line_input() {
    assert_eq!(echo_mode(0x7, false), 0x3);
    assert_eq!(echo_mode(0x1, false), 0x1);
}
