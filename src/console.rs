//! Console sizes and console mode flags.
use vstd::prelude::*;
use windows::Win32::System::Console::{COORD, SMALL_RECT};

verus! {

#[verifier::external_type_specification]
pub struct ExCoord(COORD);

#[verifier::external_type_specification]
pub struct ExSmallRect(SMALL_RECT);

/// Columns of the size used when none is given and none can be inherited.
pub const DEFAULT_COLUMNS: i16 = 80;

/// Rows of the size used when none is given and none can be inherited.
pub const DEFAULT_ROWS: i16 = 25;

/// The size used when none is given and none can be inherited.
pub open spec fn default_size() -> COORD {
    COORD { X: DEFAULT_COLUMNS, Y: DEFAULT_ROWS }
}

/// Whether a console size has at least one column and one row.
pub open spec fn is_usable_size(c: COORD) -> bool {
    c.X > 0 && c.Y > 0
}

/// Width and height of an inclusive window rectangle, when both fit a
/// console size.
pub open spec fn window_extent(w: SMALL_RECT) -> Option<COORD> {
    let cols = w.Right - w.Left + 1;
    let rows = w.Bottom - w.Top + 1;
    if 0 < cols <= i16::MAX && 0 < rows <= i16::MAX {
        Some(COORD { X: cols as i16, Y: rows as i16 })
    } else {
        None
    }
}

/// The size of the visible window of a console screen buffer: its columns
/// and rows, bounds included. `None` where the rectangle is empty or too
/// large for a console size.
pub fn window_size(window: &SMALL_RECT) -> (r: Option<COORD>)
    ensures
        r == window_extent(*window),
        r matches Some(c) ==> is_usable_size(c),
{
    let cols: i32 = window.Right as i32 - window.Left as i32 + 1;
    let rows: i32 = window.Bottom as i32 - window.Top as i32 + 1;
    if 0 < cols && cols <= i16::MAX as i32 && 0 < rows && rows <= i16::MAX as i32 {
        Some(COORD { X: cols as i16, Y: rows as i16 })
    } else {
        None
    }
}

/// The size of a new pseudo console: the requested one, else the inherited
/// one, else 80 columns by 25 rows.
pub fn select_console_size(requested: Option<COORD>, inherited: Option<COORD>) -> (r: COORD)
    ensures
        r == match requested {
            Some(c) => c,
            None => match inherited {
                Some(c) => c,
                None => default_size(),
            },
        },
{
    match requested {
        Some(c) => c,
        None => match inherited {
            Some(c) => c,
            None => COORD { X: DEFAULT_COLUMNS, Y: DEFAULT_ROWS },
        },
    }
}

/// Input mode: the system handles control keys.
pub const ENABLE_PROCESSED_INPUT: u32 = 0x1;
/// Input mode: reads return a line at a time.
pub const ENABLE_LINE_INPUT: u32 = 0x2;
/// Input mode: typed characters are echoed.
pub const ENABLE_ECHO_INPUT: u32 = 0x4;
/// Input mode: mouse events are reported.
pub const ENABLE_MOUSE_INPUT: u32 = 0x10;
/// Input mode: typed text is inserted rather than overwriting.
pub const ENABLE_INSERT_MODE: u32 = 0x20;
/// Input mode: the mouse selects and edits text.
pub const ENABLE_QUICK_EDIT_MODE: u32 = 0x40;
/// Input mode: the insert and quick edit flags are taken into account.
pub const ENABLE_EXTENDED_FLAGS: u32 = 0x80;
/// Input mode: keys are delivered as virtual terminal sequences.
pub const ENABLE_VIRTUAL_TERMINAL_INPUT: u32 = 0x200;
/// Output mode: virtual terminal sequences in the output are interpreted.
pub const ENABLE_VIRTUAL_TERMINAL_PROCESSING: u32 = 0x4;
/// Output mode: writing in the last column does not wrap to a new line.
pub const DISABLE_NEWLINE_AUTO_RETURN: u32 = 0x8;

/// The input flags that raw mode turns off.
pub const RAW_INPUT_CLEARED: u32 = ENABLE_ECHO_INPUT | ENABLE_LINE_INPUT | ENABLE_MOUSE_INPUT
    | ENABLE_PROCESSED_INPUT;
/// The input flags that raw mode turns on.
pub const RAW_INPUT_SET: u32 = ENABLE_EXTENDED_FLAGS | ENABLE_INSERT_MODE | ENABLE_QUICK_EDIT_MODE
    | ENABLE_VIRTUAL_TERMINAL_INPUT;

/// `mode` with the flags of `off` turned off and those of `on` turned on, all
/// other flags kept.
pub open spec fn with_flags(mode: u32, off: u32, on: u32) -> u32 {
    (mode & !off) | on
}

/// The input mode of raw mode, from the mode a console had: no echo, no line
/// buffering, no mouse input and no processing of control keys; insert and
/// quick edit on, and keys delivered as virtual terminal sequences.
pub fn raw_input_mode(mode: u32) -> (r: u32)
    ensures
        r == with_flags(mode, RAW_INPUT_CLEARED, RAW_INPUT_SET),
        r & ENABLE_ECHO_INPUT == 0,
        r & ENABLE_LINE_INPUT == 0,
        r & ENABLE_MOUSE_INPUT == 0,
        r & ENABLE_PROCESSED_INPUT == 0,
        r & ENABLE_EXTENDED_FLAGS != 0,
        r & ENABLE_INSERT_MODE != 0,
        r & ENABLE_QUICK_EDIT_MODE != 0,
        r & ENABLE_VIRTUAL_TERMINAL_INPUT != 0,
        r & !(RAW_INPUT_CLEARED | RAW_INPUT_SET) == mode & !(RAW_INPUT_CLEARED | RAW_INPUT_SET),
{
    let r = (mode & !RAW_INPUT_CLEARED) | RAW_INPUT_SET;
    assert(RAW_INPUT_CLEARED == 0x17 && RAW_INPUT_SET == 0x2E0) by (bit_vector);
    assert(r & 0x4 == 0 && r & 0x2 == 0 && r & 0x10 == 0 && r & 0x1 == 0) by (bit_vector)
        requires r == (mode & !0x17u32) | 0x2E0u32;
    assert(r & 0x80 != 0 && r & 0x20 != 0 && r & 0x40 != 0 && r & 0x200 != 0) by (bit_vector)
        requires r == (mode & !0x17u32) | 0x2E0u32;
    assert(r & !(0x17u32 | 0x2E0u32) == mode & !(0x17u32 | 0x2E0u32)) by (bit_vector)
        requires r == (mode & !0x17u32) | 0x2E0u32;
    r
}

/// The output mode of raw mode: writing in the last column does not wrap,
/// all other flags kept.
pub fn raw_output_mode(mode: u32) -> (r: u32)
    ensures
        r == mode | DISABLE_NEWLINE_AUTO_RETURN,
        r & DISABLE_NEWLINE_AUTO_RETURN != 0,
        r & !DISABLE_NEWLINE_AUTO_RETURN == mode & !DISABLE_NEWLINE_AUTO_RETURN,
{
    let r = mode | DISABLE_NEWLINE_AUTO_RETURN;
    assert(r & 0x8 != 0 && r & !0x8u32 == mode & !0x8u32) by (bit_vector)
        requires r == mode | 0x8u32;
    r
}

/// An output mode that interprets virtual terminal sequences, all other flags
/// kept.
pub fn virtual_terminal_mode(mode: u32) -> (r: u32)
    ensures
        r == mode | ENABLE_VIRTUAL_TERMINAL_PROCESSING,
        r & ENABLE_VIRTUAL_TERMINAL_PROCESSING != 0,
        r & !ENABLE_VIRTUAL_TERMINAL_PROCESSING == mode & !ENABLE_VIRTUAL_TERMINAL_PROCESSING,
{
    let r = mode | ENABLE_VIRTUAL_TERMINAL_PROCESSING;
    assert(r & 0x4 != 0 && r & !0x4u32 == mode & !0x4u32) by (bit_vector)
        requires r == mode | 0x4u32;
    r
}

/// A mode with echo turned on (together with line input) or off; turning it
/// off leaves line input as it was. All other flags are kept.
pub fn echo_mode(mode: u32, on: bool) -> (r: u32)
    ensures
        on ==> r == mode | (ENABLE_ECHO_INPUT | ENABLE_LINE_INPUT),
        !on ==> r == mode & !ENABLE_ECHO_INPUT,
        on ==> r & ENABLE_ECHO_INPUT != 0 && r & ENABLE_LINE_INPUT != 0,
        !on ==> r & ENABLE_ECHO_INPUT == 0 && r & ENABLE_LINE_INPUT == mode & ENABLE_LINE_INPUT,
        r & !(ENABLE_ECHO_INPUT | ENABLE_LINE_INPUT) == mode & !(ENABLE_ECHO_INPUT | ENABLE_LINE_INPUT),
{
    if on {
        let r = mode | (ENABLE_ECHO_INPUT | ENABLE_LINE_INPUT);
        assert(r & 0x4 != 0 && r & 0x2 != 0 && r & !(0x4u32 | 0x2u32) == mode & !(0x4u32 | 0x2u32)) by (bit_vector)
            requires r == mode | (0x4u32 | 0x2u32);
        r
    } else {
        let r = mode & !ENABLE_ECHO_INPUT;
        assert(r & 0x4 == 0 && r & 0x2 == mode & 0x2 && r & !(0x4u32 | 0x2u32) == mode & !(0x4u32 | 0x2u32)) by (bit_vector)
            requires r == mode & !0x4u32;
        r
    }
}

} // verus!
