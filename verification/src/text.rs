//! Text rendering of numbers and instruction names.

use vstd::prelude::*;
use vstd::string::{StrSliceExecFns, StringExecFns};
use crate::cpu::instructions::InstructionName;
use crate::cpu::{high_byte_of, low_byte_of, split_address};

verus! {

/// The digit that stands for `n` in base 16, in upper case.
pub open spec fn hex_digit(n: int) -> Seq<char> {
    if n == 0 {
        "0"@
    } else if n == 1 {
        "1"@
    } else if n == 2 {
        "2"@
    } else if n == 3 {
        "3"@
    } else if n == 4 {
        "4"@
    } else if n == 5 {
        "5"@
    } else if n == 6 {
        "6"@
    } else if n == 7 {
        "7"@
    } else if n == 8 {
        "8"@
    } else if n == 9 {
        "9"@
    } else if n == 10 {
        "A"@
    } else if n == 11 {
        "B"@
    } else if n == 12 {
        "C"@
    } else if n == 13 {
        "D"@
    } else if n == 14 {
        "E"@
    } else {
        "F"@
    }
}

/// The digit that stands for `n` in base 16, in upper case.
pub fn hex_digit_text(n: u8) -> (text: &'static str)
    requires
        n < 16,
    ensures
        text@ == hex_digit(n as int),
{
    match n {
        0 => "0",
        1 => "1",
        2 => "2",
        3 => "3",
        4 => "4",
        5 => "5",
        6 => "6",
        7 => "7",
        8 => "8",
        9 => "9",
        10 => "A",
        11 => "B",
        12 => "C",
        13 => "D",
        14 => "E",
        _ => "F",
    }
}

/// A byte as two hexadecimal digits.
pub open spec fn hex_byte(value: u8) -> Seq<char> {
    hex_digit(value as int / 16) + hex_digit(value as int % 16)
}

/// A 16-bit value as four hexadecimal digits.
pub open spec fn hex_word(value: u16) -> Seq<char> {
    hex_byte(high_byte_of(value)) + hex_byte(low_byte_of(value))
}

/// A number in decimal notation, without leading zeros.
pub open spec fn decimal(n: nat) -> Seq<char>
    decreases n,
{
    if n < 10 {
        hex_digit(n as int)
    } else {
        decimal(n / 10) + hex_digit((n % 10) as int)
    }
}

/// `count` spaces.
pub open spec fn spaces(count: nat) -> Seq<char>
    decreases count,
{
    if count == 0 {
        Seq::<char>::empty()
    } else {
        spaces((count - 1) as nat) + " "@
    }
}

/// `text`, with spaces in front of it up to the width `width`.
pub open spec fn right_aligned(text: Seq<char>, width: nat) -> Seq<char> {
    if text.len() >= width {
        text
    } else {
        spaces((width - text.len()) as nat) + text
    }
}

/// `text`, with spaces behind it up to the width `width`.
pub open spec fn left_aligned(text: Seq<char>, width: nat) -> Seq<char> {
    if text.len() >= width {
        text
    } else {
        text + spaces((width - text.len()) as nat)
    }
}

/// Renders a byte as two hexadecimal digits.
pub fn hex_byte_text(value: u8) -> (text: String)
    ensures
        text@ == hex_byte(value),
{
    let mut text = String::new();
    text.append(hex_digit_text(value / 16));
    text.append(hex_digit_text(value % 16));
    assert(text@ =~= hex_byte(value));
    text
}

/// Renders a 16-bit value as four hexadecimal digits.
pub fn hex_word_text(value: u16) -> (text: String)
    ensures
        text@ == hex_word(value),
{
    let (low, high) = split_address(value);
    let mut text = hex_byte_text(high);
    let low_text = hex_byte_text(low);
    text.append(low_text.as_str());
    text
}

/// Renders a number in decimal notation.
pub fn decimal_text(n: usize) -> (text: String)
    ensures
        text@ == decimal(n as nat),
    decreases n,
{
    if n < 10 {
        String::from_str(hex_digit_text(n as u8))
    } else {
        let mut text = decimal_text(n / 10);
        text.append(hex_digit_text((n % 10) as u8));
        text
    }
}

/// Renders `count` spaces.
pub fn spaces_text(count: usize) -> (text: String)
    ensures
        text@ == spaces(count as nat),
{
    let mut text = String::new();
    let mut done: usize = 0;
    while done < count
        invariant
            done <= count,
            text@ == spaces(done as nat),
        decreases count - done,
    {
        text.append(" ");
        done = done + 1;
    }
    text
}

/// Puts spaces in front of `text` up to the width `width`.
pub fn align_right(text: String, width: usize) -> (aligned: String)
    ensures
        aligned@ == right_aligned(text@, width as nat),
{
    let len = text.as_str().unicode_len();
    if len >= width {
        text
    } else {
        let mut aligned = spaces_text(width - len);
        aligned.append(text.as_str());
        aligned
    }
}

/// Puts spaces behind `text` up to the width `width`.
pub fn align_left(text: String, width: usize) -> (aligned: String)
    ensures
        aligned@ == left_aligned(text@, width as nat),
{
    let len = text.as_str().unicode_len();
    if len >= width {
        text
    } else {
        let mut aligned = text;
        let fill = spaces_text(width - len);
        aligned.append(fill.as_str());
        aligned
    }
}

/// The three letters by which an instruction is written.
pub open spec fn mnemonic(name: InstructionName) -> Seq<char> {
    match name {
        InstructionName::SEI => "SEI"@,
        InstructionName::CLD => "CLD"@,
        InstructionName::LDA => "LDA"@,
        InstructionName::BRK => "BRK"@,
        InstructionName::STA => "STA"@,
        InstructionName::INC => "INC"@,
        InstructionName::LDX => "LDX"@,
        InstructionName::TXS => "TXS"@,
        InstructionName::AND => "AND"@,
        InstructionName::BEQ => "BEQ"@,
        InstructionName::CPX => "CPX"@,
        InstructionName::DEY => "DEY"@,
        InstructionName::BPL => "BPL"@,
        InstructionName::PLA => "PLA"@,
        InstructionName::TAY => "TAY"@,
        InstructionName::CPY => "CPY"@,
        InstructionName::BNE => "BNE"@,
        InstructionName::RTS => "RTS"@,
        InstructionName::JMP => "JMP"@,
        InstructionName::STX => "STX"@,
        InstructionName::JSR => "JSR"@,
        InstructionName::NOP => "NOP"@,
        InstructionName::SEC => "SEC"@,
        InstructionName::BCS => "BCS"@,
        InstructionName::CLC => "CLC"@,
        InstructionName::CLI => "CLI"@,
        InstructionName::BCC => "BCC"@,
        InstructionName::PHP => "PHP"@,
        InstructionName::BIT => "BIT"@,
        InstructionName::BVS => "BVS"@,
        InstructionName::BVC => "BVC"@,
        InstructionName::LDY => "LDY"@,
        InstructionName::ASL => "ASL"@,
        InstructionName::RTI => "RTI"@,
        InstructionName::SBC => "SBC"@,
        InstructionName::SED => "SED"@,
        InstructionName::CMP => "CMP"@,
        InstructionName::PHA => "PHA"@,
        InstructionName::PLP => "PLP"@,
        InstructionName::BMI => "BMI"@,
        InstructionName::ORA => "ORA"@,
        InstructionName::CLV => "CLV"@,
        InstructionName::EOR => "EOR"@,
        InstructionName::ADC => "ADC"@,
        InstructionName::STY => "STY"@,
        InstructionName::INY => "INY"@,
        InstructionName::INX => "INX"@,
        InstructionName::TAX => "TAX"@,
        InstructionName::TYA => "TYA"@,
        InstructionName::TXA => "TXA"@,
        InstructionName::TSX => "TSX"@,
        InstructionName::DEX => "DEX"@,
        InstructionName::LSR => "LSR"@,
        InstructionName::ROR => "ROR"@,
        InstructionName::ROL => "ROL"@,
        InstructionName::DEC => "DEC"@,
        InstructionName::LAX => "LAX"@,
        InstructionName::SAX => "SAX"@,
        InstructionName::DCP => "DCP"@,
        InstructionName::ISB => "ISB"@,
        InstructionName::SLO => "SLO"@,
        InstructionName::RLA => "RLA"@,
        InstructionName::SRE => "SRE"@,
        InstructionName::RRA => "RRA"@,
    }
}

/// The three letters by which an instruction is written.
pub fn mnemonic_text(name: InstructionName) -> (text: &'static str)
    ensures
        text@ == mnemonic(name),
{
    match name {
        InstructionName::SEI => "SEI",
        InstructionName::CLD => "CLD",
        InstructionName::LDA => "LDA",
        InstructionName::BRK => "BRK",
        InstructionName::STA => "STA",
        InstructionName::INC => "INC",
        InstructionName::LDX => "LDX",
        InstructionName::TXS => "TXS",
        InstructionName::AND => "AND",
        InstructionName::BEQ => "BEQ",
        InstructionName::CPX => "CPX",
        InstructionName::DEY => "DEY",
        InstructionName::BPL => "BPL",
        InstructionName::PLA => "PLA",
        InstructionName::TAY => "TAY",
        InstructionName::CPY => "CPY",
        InstructionName::BNE => "BNE",
        InstructionName::RTS => "RTS",
        InstructionName::JMP => "JMP",
        InstructionName::STX => "STX",
        InstructionName::JSR => "JSR",
        InstructionName::NOP => "NOP",
        InstructionName::SEC => "SEC",
        InstructionName::BCS => "BCS",
        InstructionName::CLC => "CLC",
        InstructionName::CLI => "CLI",
        InstructionName::BCC => "BCC",
        InstructionName::PHP => "PHP",
        InstructionName::BIT => "BIT",
        InstructionName::BVS => "BVS",
        InstructionName::BVC => "BVC",
        InstructionName::LDY => "LDY",
        InstructionName::ASL => "ASL",
        InstructionName::RTI => "RTI",
        InstructionName::SBC => "SBC",
        InstructionName::SED => "SED",
        InstructionName::CMP => "CMP",
        InstructionName::PHA => "PHA",
        InstructionName::PLP => "PLP",
        InstructionName::BMI => "BMI",
        InstructionName::ORA => "ORA",
        InstructionName::CLV => "CLV",
        InstructionName::EOR => "EOR",
        InstructionName::ADC => "ADC",
        InstructionName::STY => "STY",
        InstructionName::INY => "INY",
        InstructionName::INX => "INX",
        InstructionName::TAX => "TAX",
        InstructionName::TYA => "TYA",
        InstructionName::TXA => "TXA",
        InstructionName::TSX => "TSX",
        InstructionName::DEX => "DEX",
        InstructionName::LSR => "LSR",
        InstructionName::ROR => "ROR",
        InstructionName::ROL => "ROL",
        InstructionName::DEC => "DEC",
        InstructionName::LAX => "LAX",
        InstructionName::SAX => "SAX",
        InstructionName::DCP => "DCP",
        InstructionName::ISB => "ISB",
        InstructionName::SLO => "SLO",
        InstructionName::RLA => "RLA",
        InstructionName::SRE => "SRE",
        InstructionName::RRA => "RRA",
    }
}

} // verus!
