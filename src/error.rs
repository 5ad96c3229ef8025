//! The library's error type.
use vstd::prelude::*;
use vstd::string::*;

verus! {

#[verifier::external_type_specification]
pub struct ExHresult(windows::core::HRESULT);

/// What can go wrong with a pseudo-console session.
#[derive(Debug)]
pub enum Error {
    /// A native call failed with the given status code.
    Win(windows::core::HRESULT),
    /// The process had not exited within the given number of milliseconds.
    Timeout(u32),
    /// Waiting for the process ended with the given abnormal wait event.
    WaitFailed(u32),
    /// The input of the console is already closed.
    InputClosed,
    /// A non-blocking read found no data to read.
    WouldBlock,
}

/// The character of a decimal or hexadecimal digit.
pub open spec fn digit_char(d: nat) -> char {
    if d < 10 {
        ((48 + d) as u8) as char
    } else {
        ((55 + d) as u8) as char
    }
}

/// The decimal digits of a number, without leading zeros.
pub open spec fn decimal(n: nat) -> Seq<char>
    decreases n,
{
    if n < 10 {
        seq![digit_char(n)]
    } else {
        decimal(n / 10).push(digit_char(n % 10))
    }
}

fn digit(d: u32) -> (c: char)
    requires
        d < 16,
    ensures
        c == digit_char(d as nat),
{
    if d < 10 {
        ((48 + d) as u8) as char
    } else {
        ((55 + d) as u8) as char
    }
}

/// The eight hexadecimal digits of a number, most significant first.
pub open spec fn hex8(n: u32) -> Seq<char> {
    Seq::new(8, |i: int| digit_char(((n >> ((28 - 4 * i) as u32)) & 0xF) as nat))
}

/// Relies on `String::push`: appends one character.
#[verifier::external_body]
fn push_char(s: &mut String, c: char)
    ensures
        final(s)@ == old(s)@.push(c),
{
    s.push(c);
}

fn push_decimal(s: &mut String, n: u32)
    ensures
        final(s)@ == old(s)@ + decimal(n as nat),
    decreases n,
{
    if n >= 10 {
        push_decimal(s, n / 10);
    }
    push_char(s, digit(n % 10));
    proof {
        if n < 10 {
            assert(decimal(n as nat) =~= seq![digit_char(n as nat)]);
        }
    }
    assert(final(s)@ =~= old(s)@ + decimal(n as nat));
}

fn push_hex8(s: &mut String, n: u32)
    ensures
        final(s)@ == old(s)@ + hex8(n),
{
    let ghost start = s@;
    let mut i: u32 = 0;
    while i < 8
        invariant
            i <= 8,
            s@ == start + hex8(n).subrange(0, i as int),
        decreases 8 - i,
    {
        let shift: u32 = 28 - 4 * i;
        let d = (n >> shift) & 0xF;
        assert(((n >> shift) & 0xF) < 16) by (bit_vector);
        push_char(s, digit(d));
        assert(hex8(n).subrange(0, i + 1) =~= hex8(n).subrange(0, i as int).push(digit_char(d as nat)));
        i = i + 1;
    }
    assert(hex8(n).subrange(0, 8) =~= hex8(n));
}

/// The first `HRESULT` of Win32 errors: the failure bit and the Win32
/// facility, `0x80070000`, read as a signed number.
pub const WIN32_HRESULT_BASE: i32 = -2147024896;

/// The Win32 code of the pipe-closed condition: the other end of the stream
/// was closed.
pub const ERROR_BROKEN_PIPE: i32 = 109;

/// The `HRESULT` that carries a Win32 error code.
pub open spec fn win32_hresult(code: int) -> int {
    WIN32_HRESULT_BASE + code
}

/// The operating-system error number of an `HRESULT`: for one that carries
/// a Win32 error, that error's code; any other value is its own number.
pub open spec fn os_error_number(code: i32) -> int {
    if WIN32_HRESULT_BASE <= code < WIN32_HRESULT_BASE + 0x10000 {
        code - WIN32_HRESULT_BASE
    } else {
        code as int
    }
}

/// A one-line description of an error.
pub open spec fn description(e: Error) -> Seq<char> {
    match e {
        Error::Win(code) => "Windows error: 0x"@ + hex8(code.0 as u32),
        Error::Timeout(ms) => "A timeout of "@ + decimal(ms as nat) + " ms was reached"@,
        Error::WaitFailed(event) => "Waiting failed. WAIT_EVENT: "@ + decimal(event as nat),
        Error::InputClosed => "The input is already closed"@,
        Error::WouldBlock => "No data is available to read"@,
    }
}

impl Error {
    /// Whether the error says that the other end of the stream was closed.
    pub fn is_stream_ended(&self) -> (r: bool)
        ensures
            r == (self matches Error::Win(code) && code.0 == win32_hresult(ERROR_BROKEN_PIPE as int)),
    {
        match self {
            Error::Win(code) => code.0 == WIN32_HRESULT_BASE + ERROR_BROKEN_PIPE,
            _ => false,
        }
    }

    /// The operating-system error number of a failed native call.
    pub fn os_error(&self) -> (r: Option<i32>)
        ensures
            r matches Some(n) ==> self matches Error::Win(code) && n == os_error_number(code.0),
            r is None <==> !(self is Win),
    {
        match self {
            Error::Win(code) => {
                if WIN32_HRESULT_BASE <= code.0 && code.0 <= WIN32_HRESULT_BASE + 0xFFFF {
                    Some(code.0 - WIN32_HRESULT_BASE)
                } else {
                    Some(code.0)
                }
            },
            _ => None,
        }
    }

    /// A one-line description of the error.
    pub fn describe(&self) -> (r: String)
        ensures
            r@ == description(*self),
    {
        match self {
            Error::Win(code) => {
                let mut s = String::from_str("Windows error: 0x");
                push_hex8(&mut s, code.0 as u32);
                s
            },
            Error::Timeout(ms) => {
                let mut s = String::from_str("A timeout of ");
                push_decimal(&mut s, *ms);
                s.append(" ms was reached");
                s
            },
            Error::WaitFailed(event) => {
                let mut s = String::from_str("Waiting failed. WAIT_EVENT: ");
                push_decimal(&mut s, *event);
                s
            },
            Error::InputClosed => String::from_str("The input is already closed"),
            Error::WouldBlock => String::from_str("No data is available to read"),
        }
    }
}

} // verus!
