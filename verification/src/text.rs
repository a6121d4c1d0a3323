//! Failures of the engine in words, with numbers in hexadecimal.

use crate::registers::{CpuError, CpuErrorKind};
use vstd::prelude::*;

verus! {

/// The hexadecimal digit of a number below sixteen, in lower case.
pub open spec fn spec_hex_digit(n: int) -> char {
    if n < 10 {
        ('0' as int + n) as char
    } else {
        ('a' as int + n - 10) as char
    }
}

/// A byte as `0x` and two hexadecimal digits.
pub open spec fn spec_hex_byte(value: u8) -> Seq<char> {
    "0x"@ + seq![spec_hex_digit(value as int / 16), spec_hex_digit(value as int % 16)]
}

/// A word as `0x` and four hexadecimal digits.
pub open spec fn spec_hex_word(value: u16) -> Seq<char> {
    "0x"@ + seq![
        spec_hex_digit(value as int / 4096),
        spec_hex_digit(value as int / 256 % 16),
        spec_hex_digit(value as int / 16 % 16),
        spec_hex_digit(value as int % 16),
    ]
}

/// What went wrong, in words.
pub open spec fn spec_error_string(kind: CpuErrorKind) -> Seq<char> {
    match kind {
        CpuErrorKind::PcOverflow => "CPU Windup"@,
        CpuErrorKind::UnknownOpcode(ins) => "Unknown instruction: INS="@ + spec_hex_byte(ins),
        CpuErrorKind::SelfLoop => "LOOP Detected"@,
    }
}

/// A failure in one line: what went wrong and at which program counter.
pub open spec fn spec_error_text(error: CpuError) -> Seq<char> {
    "["@ + spec_error_string(error.kind) + " PC="@ + spec_hex_word(error.pc) + "]"@
}

/// The hexadecimal digit of a number below sixteen, as a string of one
/// character.
fn hex_digit(n: u8) -> (digit: &'static str)
    requires
        n < 16,
    ensures
        digit@ == seq![spec_hex_digit(n as int)],
{
    proof {
        reveal_strlit("0");
        reveal_strlit("1");
        reveal_strlit("2");
        reveal_strlit("3");
        reveal_strlit("4");
        reveal_strlit("5");
        reveal_strlit("6");
        reveal_strlit("7");
        reveal_strlit("8");
        reveal_strlit("9");
        reveal_strlit("a");
        reveal_strlit("b");
        reveal_strlit("c");
        reveal_strlit("d");
        reveal_strlit("e");
        reveal_strlit("f");
    }
    let digit = match n {
        0 => "0",
        1 => "1",
        2 => "2",
        3 => "3",
        4 => "4",
        5 => "5",
        6 => "6",
        7 => "7",
        8 => "8",
        9 => "9",
        10 => "a",
        11 => "b",
        12 => "c",
        13 => "d",
        14 => "e",
        _ => "f",
    };
    assert(digit@ =~= seq![spec_hex_digit(n as int)]);
    digit
}

/// Writes a byte as `0x` and two hexadecimal digits.
pub fn hex_byte(value: u8) -> (text: String)
    ensures
        text@ == spec_hex_byte(value),
{
    let mut text = "0x".to_owned();
    text.append(hex_digit(value / 16));
    text.append(hex_digit(value % 16));
    assert(text@ =~= spec_hex_byte(value));
    text
}

/// Writes a word as `0x` and four hexadecimal digits.
pub fn hex_word(value: u16) -> (text: String)
    ensures
        text@ == spec_hex_word(value),
{
    let mut text = "0x".to_owned();
    text.append(hex_digit((value / 4096) as u8));
    text.append(hex_digit((value / 256 % 16) as u8));
    text.append(hex_digit((value / 16 % 16) as u8));
    text.append(hex_digit((value % 16) as u8));
    assert(text@ =~= spec_hex_word(value));
    text
}

impl CpuError {
    /// What went wrong, in words.
    pub fn error_string(&self) -> (text: String)
        ensures
            text@ == spec_error_string(self.kind),
    {
        match self.kind {
            CpuErrorKind::PcOverflow => "CPU Windup".to_owned(),
            CpuErrorKind::UnknownOpcode(ins) => {
                let mut text = "Unknown instruction: INS=".to_owned();
                let number = hex_byte(ins);
                text.append(number.as_str());
                text
            },
            CpuErrorKind::SelfLoop => "LOOP Detected".to_owned(),
        }
    }

    /// The failure in one line: what went wrong and at which program
    /// counter, in square brackets.
    pub fn to_text(&self) -> (text: String)
        ensures
            text@ == spec_error_text(*self),
    {
        let mut text = "[".to_owned();
        let reason = self.error_string();
        text.append(reason.as_str());
        text.append(" PC=");
        let place = hex_word(self.pc);
        text.append(place.as_str());
        text.append("]");
        text
    }
}

} // verus!
