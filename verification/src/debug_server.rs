//! Text side of the debug console: binary frames as hexadecimal text, and
//! the console's command words.

use crate::text::{
    has_prefix, lowercased, strip_prefix, text_is, to_lowercase, trim, trimmed,
};
use vstd::prelude::*;
use vstd::string::{StrSliceExecFns, StringExecFns};

verus! {

/// Why a text is not the hexadecimal form of a byte string.
#[derive(Debug, Clone, Copy, PartialEq, Eq, Structural)]
pub enum HexError {
    /// The digits do not pair up.
    OddLength,
    /// A pair of characters does not name a byte.
    InvalidDigit,
}

/// The lower-case character of a hexadecimal digit.
pub open spec fn hex_digit_char(digit: nat) -> char
    recommends
        digit < 16,
{
    if digit == 0 {
        '0'
    } else if digit == 1 {
        '1'
    } else if digit == 2 {
        '2'
    } else if digit == 3 {
        '3'
    } else if digit == 4 {
        '4'
    } else if digit == 5 {
        '5'
    } else if digit == 6 {
        '6'
    } else if digit == 7 {
        '7'
    } else if digit == 8 {
        '8'
    } else if digit == 9 {
        '9'
    } else if digit == 10 {
        'a'
    } else if digit == 11 {
        'b'
    } else if digit == 12 {
        'c'
    } else if digit == 13 {
        'd'
    } else if digit == 14 {
        'e'
    } else {
        'f'
    }
}

/// The value of a hexadecimal digit, in either case.
pub open spec fn hex_digit_value(c: char) -> Option<u8> {
    if c == '0' {
        Some(0u8)
    } else if c == '1' {
        Some(1u8)
    } else if c == '2' {
        Some(2u8)
    } else if c == '3' {
        Some(3u8)
    } else if c == '4' {
        Some(4u8)
    } else if c == '5' {
        Some(5u8)
    } else if c == '6' {
        Some(6u8)
    } else if c == '7' {
        Some(7u8)
    } else if c == '8' {
        Some(8u8)
    } else if c == '9' {
        Some(9u8)
    } else if c == 'a' || c == 'A' {
        Some(10u8)
    } else if c == 'b' || c == 'B' {
        Some(11u8)
    } else if c == 'c' || c == 'C' {
        Some(12u8)
    } else if c == 'd' || c == 'D' {
        Some(13u8)
    } else if c == 'e' || c == 'E' {
        Some(14u8)
    } else if c == 'f' || c == 'F' {
        Some(15u8)
    } else {
        None
    }
}

/// The byte that a pair of characters names: two hexadecimal digits, or a
/// plus sign and one digit.
pub open spec fn hex_pair_value(first: char, second: char) -> Option<u8> {
    match hex_digit_value(second) {
        Some(low) => match hex_digit_value(first) {
            Some(high) => Some((16 * high + low) as u8),
            None => if first == '+' {
                Some(low)
            } else {
                None
            },
        },
        None => None,
    }
}

/// The hexadecimal form of a byte string: two lower-case digits a byte,
/// nothing between them.
pub open spec fn hex_text(bytes: Seq<u8>) -> Seq<char> {
    Seq::new(
        2 * bytes.len(),
        |i: int|
            if i % 2 == 0 {
                hex_digit_char((bytes[i / 2] / 16) as nat)
            } else {
                hex_digit_char((bytes[i / 2] % 16) as nat)
            },
    )
}

/// A text with its spaces taken out.
pub open spec fn without_spaces(text: Seq<char>) -> Seq<char>
    decreases text.len(),
{
    if text.len() == 0 {
        Seq::<char>::empty()
    } else if text.last() == ' ' {
        without_spaces(text.drop_last())
    } else {
        without_spaces(text.drop_last()).push(text.last())
    }
}

/// Whether every pair of `digits` names a byte.
pub open spec fn hex_pairs_valid(digits: Seq<char>) -> bool {
    forall|i: int|
        0 <= i < digits.len() / 2 ==> (#[trigger] hex_pair_value(
            digits[2 * i],
            digits[2 * i + 1],
        )) is Some
}

/// The bytes that the pairs of `digits` name.
pub open spec fn hex_pairs_bytes(digits: Seq<char>) -> Seq<u8> {
    Seq::new(
        (digits.len() / 2) as nat,
        |i: int| hex_pair_value(digits[2 * i], digits[2 * i + 1]).unwrap(),
    )
}

/// The byte string that a hexadecimal text stands for. Spaces do not
/// count. What is left must pair up, and each pair must name a byte.
pub open spec fn hex_decoded(text: Seq<char>) -> Result<Seq<u8>, HexError> {
    let digits = without_spaces(text);
    if digits.len() % 2 != 0 {
        Err(HexError::OddLength)
    } else if !hex_pairs_valid(digits) {
        Err(HexError::InvalidDigit)
    } else {
        Ok(hex_pairs_bytes(digits))
    }
}

/// One lower-case hexadecimal digit as text.
fn hex_digit_str(digit: u8) -> (text: &'static str)
    requires
        digit < 16,
    ensures
        text@ == seq![hex_digit_char(digit as nat)],
{
    proof {
        reveal_strlit("0");
        reveal_strlit("1");
        reveal_strlit("2");
        reveal_strlit("3");
        reveal_strlit("4");
        reveal_strlit("5");
        reveal_strlit("6");
        reveal_strlit("7");
        reveal_strlit("8");
        reveal_strlit("9");
        reveal_strlit("a");
        reveal_strlit("b");
        reveal_strlit("c");
        reveal_strlit("d");
        reveal_strlit("e");
        reveal_strlit("f");
    }
    let text: &'static str = if digit == 0 {
        "0"
    } else if digit == 1 {
        "1"
    } else if digit == 2 {
        "2"
    } else if digit == 3 {
        "3"
    } else if digit == 4 {
        "4"
    } else if digit == 5 {
        "5"
    } else if digit == 6 {
        "6"
    } else if digit == 7 {
        "7"
    } else if digit == 8 {
        "8"
    } else if digit == 9 {
        "9"
    } else if digit == 10 {
        "a"
    } else if digit == 11 {
        "b"
    } else if digit == 12 {
        "c"
    } else if digit == 13 {
        "d"
    } else if digit == 14 {
        "e"
    } else {
        "f"
    };
    assert(text@ =~= seq![hex_digit_char(digit as nat)]);
    text
}

/// Writes a byte string as hexadecimal text.
pub fn hex_encode(bytes: &[u8]) -> (text: String)
    ensures
        text@ == hex_text(bytes@),
{
    let mut text: String = String::new();
    let mut i: usize = 0;
    while i < bytes.len()
        invariant
            i <= bytes.len(),
            text@ == hex_text(bytes@.take(i as int)),
        decreases bytes.len() - i,
    {
        let byte: u8 = bytes[i];
        let ghost before = text@;
        text.append(hex_digit_str(byte / 16));
        text.append(hex_digit_str(byte % 16));
        assert(text@ =~= hex_text(bytes@.take(i + 1))) by {
            let longer = bytes@.take(i + 1);
            assert(before == hex_text(bytes@.take(i as int)));
            assert forall|k: int| 0 <= k < 2 * (i + 1) implies text@[k] == hex_text(longer)[k] by {
                if k < 2 * i {
                    assert(bytes@.take(i as int)[k / 2] == longer[k / 2]);
                }
            }
        }
        i = i + 1;
    }
    assert(bytes@.take(i as int) =~= bytes@);
    text
}

/// Reads one hexadecimal digit.
fn hex_digit(c: char) -> (value: Option<u8>)
    ensures
        value == hex_digit_value(c),
{
    if c == '0' {
        Some(0)
    } else if c == '1' {
        Some(1)
    } else if c == '2' {
        Some(2)
    } else if c == '3' {
        Some(3)
    } else if c == '4' {
        Some(4)
    } else if c == '5' {
        Some(5)
    } else if c == '6' {
        Some(6)
    } else if c == '7' {
        Some(7)
    } else if c == '8' {
        Some(8)
    } else if c == '9' {
        Some(9)
    } else if c == 'a' || c == 'A' {
        Some(10)
    } else if c == 'b' || c == 'B' {
        Some(11)
    } else if c == 'c' || c == 'C' {
        Some(12)
    } else if c == 'd' || c == 'D' {
        Some(13)
    } else if c == 'e' || c == 'E' {
        Some(14)
    } else if c == 'f' || c == 'F' {
        Some(15)
    } else {
        None
    }
}

/// Reads the byte that a pair of characters names.
fn hex_pair(first: char, second: char) -> (value: Option<u8>)
    ensures
        value == hex_pair_value(first, second),
{
    match hex_digit(second) {
        Some(low) => match hex_digit(first) {
            Some(high) => Some(16 * high + low),
            None => if first == '+' {
                Some(low)
            } else {
                None
            },
        },
        None => None,
    }
}

/// Collects the characters of a text that are not spaces.
fn strip_spaces(text: &str) -> (digits: Vec<char>)
    ensures
        digits@ == without_spaces(text@),
{
    let mut digits: Vec<char> = Vec::new();
    for c in it: text.chars()
        invariant
            it.seq() == text@,
            digits@ == without_spaces(text@.take(it.index() as int)),
    {
        assert(text@.take(it.index() + 1).drop_last() =~= text@.take(it.index() as int));
        if c != ' ' {
            digits.push(c);
        }
    }
    assert(text@.take(text@.len() as int) =~= text@);
    digits
}

/// Reads a byte string from hexadecimal text. Spaces may stand anywhere.
pub fn hex_decode(hex: &str) -> (bytes: Result<Vec<u8>, HexError>)
    ensures
        match bytes {
            Ok(b) => hex_decoded(hex@) == Ok::<Seq<u8>, HexError>(b@),
            Err(e) => hex_decoded(hex@) == Err::<Seq<u8>, HexError>(e),
        },
{
    let digits: Vec<char> = strip_spaces(hex);
    if digits.len() % 2 != 0 {
        return Err(HexError::OddLength);
    }
    let count: usize = digits.len() / 2;
    let mut out: Vec<u8> = Vec::with_capacity(count);
    let mut i: usize = 0;
    while i < count
        invariant
            digits@ == without_spaces(hex@),
            2 * count == digits.len(),
            i <= count,
            out@.len() == i,
            forall|k: int|
                0 <= k < i ==> (#[trigger] hex_pair_value(digits@[2 * k], digits@[2 * k + 1]))
                    == Some(out@[k]),
        decreases count - i,
    {
        match hex_pair(digits[2 * i], digits[2 * i + 1]) {
            Some(byte) => {
                out.push(byte);
            },
            None => {
                let ghost at: int = 2 * (i as int);
                assert(hex_pair_value(digits@[at], digits@[at + 1]) is None);
                assert(!hex_pairs_valid(digits@));
                return Err(HexError::InvalidDigit);
            },
        }
        i = i + 1;
    }
    assert(hex_pairs_valid(digits@));
    assert(out@ =~= hex_pairs_bytes(digits@));
    Ok(out)
}

impl HexError {
    /// The words in which the console reports the error.
    pub open spec fn message_text(self) -> Seq<char> {
        match self {
            HexError::OddLength => "hex string must have even length"@,
            HexError::InvalidDigit => "invalid digit found in string"@,
        }
    }

    /// The words in which the console reports the error.
    pub fn message(&self) -> (text: String)
        ensures
            text@ == self.message_text(),
    {
        match self {
            HexError::OddLength => String::from_str("hex string must have even length"),
            HexError::InvalidDigit => String::from_str("invalid digit found in string"),
        }
    }
}

/// A text that holds no space is left as it is when spaces are taken out.
pub proof fn lemma_without_spaces_keeps_spaceless(text: Seq<char>)
    requires
        forall|i: int| 0 <= i < text.len() ==> text[i] != ' ',
    ensures
        without_spaces(text) == text,
    decreases text.len(),
{
    if text.len() > 0 {
        lemma_without_spaces_keeps_spaceless(text.drop_last());
        assert(text.drop_last().push(text.last()) =~= text);
    }
}

/// A digit written and read back is the same digit.
pub proof fn lemma_hex_digit_round_trip(digit: nat)
    requires
        digit < 16,
    ensures
        hex_digit_value(hex_digit_char(digit)) == Some(digit as u8),
        hex_digit_char(digit) != ' ',
{
}

/// Every byte string written as hexadecimal text reads back as itself.
pub proof fn lemma_hex_round_trip(bytes: Seq<u8>)
    ensures
        hex_decoded(hex_text(bytes)) == Ok::<Seq<u8>, HexError>(bytes),
{
    let text = hex_text(bytes);
    assert forall|i: int| 0 <= i < text.len() implies text[i] != ' ' by {
        lemma_hex_digit_round_trip((bytes[i / 2] / 16) as nat);
        lemma_hex_digit_round_trip((bytes[i / 2] % 16) as nat);
    }
    lemma_without_spaces_keeps_spaceless(text);
    assert forall|i: int| 0 <= i < text.len() / 2 implies (#[trigger] hex_pair_value(
        text[2 * i],
        text[2 * i + 1],
    )) == Some(bytes[i]) by {
        lemma_hex_digit_round_trip((bytes[i] / 16) as nat);
        lemma_hex_digit_round_trip((bytes[i] % 16) as nat);
    }
    assert(hex_pairs_bytes(text) =~= bytes);
}

/// A line typed at the console.
#[derive(Debug, Clone)]
pub enum ConsoleCommand {
    /// Nothing was typed.
    Empty,
    /// `cp <hex>`: write the payload, given in hexadecimal, to the control
    /// point.
    ControlPoint(String),
    /// `help`: list the commands.
    Help,
    /// `state`: show the treadmill state.
    State,
    /// `td`: read the treadmill data frame.
    TreadmillData,
    /// `feat`: read the feature value.
    Feature,
    /// `sr`: read the supported speed range.
    SpeedRange,
    /// `ir`: read the supported inclination range.
    InclineRange,
    /// `sub`: follow the treadmill data once per second.
    Subscribe,
    /// `quit` or `exit`: leave.
    Quit,
    /// Anything else; the line is attached.
    Unknown(String),
}

/// A console command as plain values.
pub enum ConsoleCommandView {
    /// Nothing was typed.
    Empty,
    /// Write this payload, given in hexadecimal, to the control point.
    ControlPoint(Seq<char>),
    /// List the commands.
    Help,
    /// Show the treadmill state.
    State,
    /// Read the treadmill data frame.
    TreadmillData,
    /// Read the feature value.
    Feature,
    /// Read the supported speed range.
    SpeedRange,
    /// Read the supported inclination range.
    InclineRange,
    /// Follow the treadmill data once per second.
    Subscribe,
    /// Leave.
    Quit,
    /// Anything else, and the line.
    Unknown(Seq<char>),
}

impl View for ConsoleCommand {
    type V = ConsoleCommandView;

    open spec fn view(&self) -> ConsoleCommandView {
        match *self {
            ConsoleCommand::Empty => ConsoleCommandView::Empty,
            ConsoleCommand::ControlPoint(payload) => ConsoleCommandView::ControlPoint(payload@),
            ConsoleCommand::Help => ConsoleCommandView::Help,
            ConsoleCommand::State => ConsoleCommandView::State,
            ConsoleCommand::TreadmillData => ConsoleCommandView::TreadmillData,
            ConsoleCommand::Feature => ConsoleCommandView::Feature,
            ConsoleCommand::SpeedRange => ConsoleCommandView::SpeedRange,
            ConsoleCommand::InclineRange => ConsoleCommandView::InclineRange,
            ConsoleCommand::Subscribe => ConsoleCommandView::Subscribe,
            ConsoleCommand::Quit => ConsoleCommandView::Quit,
            ConsoleCommand::Unknown(line) => ConsoleCommandView::Unknown(line@),
        }
    }
}

/// What a tidied line means that is a single word.
pub open spec fn word_command(text: Seq<char>) -> ConsoleCommandView {
    if text == "help"@ {
        ConsoleCommandView::Help
    } else if text == "state"@ {
        ConsoleCommandView::State
    } else if text == "td"@ {
        ConsoleCommandView::TreadmillData
    } else if text == "feat"@ {
        ConsoleCommandView::Feature
    } else if text == "sr"@ {
        ConsoleCommandView::SpeedRange
    } else if text == "ir"@ {
        ConsoleCommandView::InclineRange
    } else if text == "sub"@ {
        ConsoleCommandView::Subscribe
    } else if text == "quit"@ || text == "exit"@ {
        ConsoleCommandView::Quit
    } else {
        ConsoleCommandView::Unknown(text)
    }
}

/// Reads a tidied line that is a single word.
pub fn read_word(text: &str) -> (cmd: ConsoleCommand)
    ensures
        cmd@ == word_command(text@),
{
    if text_is(text, "help") {
        ConsoleCommand::Help
    } else if text_is(text, "state") {
        ConsoleCommand::State
    } else if text_is(text, "td") {
        ConsoleCommand::TreadmillData
    } else if text_is(text, "feat") {
        ConsoleCommand::Feature
    } else if text_is(text, "sr") {
        ConsoleCommand::SpeedRange
    } else if text_is(text, "ir") {
        ConsoleCommand::InclineRange
    } else if text_is(text, "sub") {
        ConsoleCommand::Subscribe
    } else if text_is(text, "quit") || text_is(text, "exit") {
        ConsoleCommand::Quit
    } else {
        ConsoleCommand::Unknown(String::from_str(text))
    }
}

/// What a line typed at the console means. The line is trimmed and put in
/// lower case. `cp` takes what follows its space, trimmed once more; every
/// other command is a single word.
pub open spec fn console_command_of(line: Seq<char>) -> ConsoleCommandView {
    let text = lowercased(trimmed(line));
    if text.len() == 0 {
        ConsoleCommandView::Empty
    } else if has_prefix(text, "cp "@) {
        ConsoleCommandView::ControlPoint(trimmed(text.skip("cp "@.len() as int)))
    } else {
        word_command(text)
    }
}

/// Reads a line typed at the console.
pub fn parse_console_line(line: &str) -> (cmd: ConsoleCommand)
    ensures
        cmd@ == console_command_of(line@),
{
    let lowered: String = to_lowercase(trim(line));
    let text: &str = lowered.as_str();
    if text.unicode_len() == 0 {
        return ConsoleCommand::Empty;
    }
    match strip_prefix(text, "cp ") {
        Some(rest) => ConsoleCommand::ControlPoint(String::from_str(trim(rest.as_str()))),
        None => read_word(text),
    }
}

} // verus!
