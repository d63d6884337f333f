//! Port numbers as text: written in decimal, and read back from an argument.

use vstd::prelude::*;
use vstd::std_specs::iter::IteratorSpec;
use vstd::string::*;

verus! {

/// The largest port number.
pub const MAX_PORT: u16 = 65535;

/// Why a text is no port number.
#[derive(Debug, Clone, Copy, PartialEq, Eq, Structural)]
pub enum PortError {
    /// The text is not an optional sign followed by decimal digits.
    NotANumber,
    /// The text is a number below 0 or above 65535.
    OutOfRange,
}

impl PortError {
    /// The text that says what is wrong with the port.
    pub open spec fn message_text(self) -> Seq<char> {
        match self {
            PortError::NotANumber => "not a number"@,
            PortError::OutOfRange => "not in 0..=65535"@,
        }
    }

    /// Says what is wrong with the port, in words that can follow the
    /// rejected text in a usage error.
    pub fn message(self) -> (message: &'static str)
        ensures
            message@ == self.message_text(),
    {
        match self {
            PortError::NotANumber => "not a number",
            PortError::OutOfRange => "not in 0..=65535",
        }
    }
}

/// The text of one decimal digit; empty for a number that is no digit.
pub open spec fn digit_text(d: nat) -> Seq<char> {
    if d == 0 {
        "0"@
    } else if d == 1 {
        "1"@
    } else if d == 2 {
        "2"@
    } else if d == 3 {
        "3"@
    } else if d == 4 {
        "4"@
    } else if d == 5 {
        "5"@
    } else if d == 6 {
        "6"@
    } else if d == 7 {
        "7"@
    } else if d == 8 {
        "8"@
    } else if d == 9 {
        "9"@
    } else {
        Seq::empty()
    }
}

/// The decimal text of a number, without sign and without leading zeros.
pub open spec fn decimal_text(n: nat) -> Seq<char>
    decreases n,
{
    if n < 10 {
        digit_text(n)
    } else {
        decimal_text(n / 10) + digit_text(n % 10)
    }
}

/// Whether `c` is one of the ten decimal digits.
pub open spec fn is_digit(c: char) -> bool {
    '0' <= c && c <= '9'
}

/// The number that the digit `c` stands for.
pub open spec fn digit_value(c: char) -> nat
    recommends
        is_digit(c),
{
    (c as int - '0' as int) as nat
}

/// The number that a run of decimal digits stands for; 0 for the empty run.
pub open spec fn digits_value(digits: Seq<char>) -> nat
    decreases digits.len(),
{
    if digits.len() == 0 {
        0
    } else {
        digits_value(digits.drop_last()) * 10 + digit_value(digits.last())
    }
}

/// Whether the text begins with `+` or `-`.
pub open spec fn has_sign(text: Seq<char>) -> bool {
    text.len() > 0 && (text[0] == '+' || text[0] == '-')
}

/// The text without its sign.
pub open spec fn unsigned_part(text: Seq<char>) -> Seq<char> {
    if has_sign(text) {
        text.subrange(1, text.len() as int)
    } else {
        text
    }
}

/// Whether the text is a number: an optional sign, then one decimal digit or more.
pub open spec fn is_number(text: Seq<char>) -> bool {
    let digits = unsigned_part(text);
    digits.len() > 0 && forall|i: int| 0 <= i < digits.len() ==> is_digit(#[trigger] digits[i])
}

/// The number that the text stands for.
pub open spec fn number_value(text: Seq<char>) -> int
    recommends
        is_number(text),
{
    if text.len() > 0 && text[0] == '-' {
        -(digits_value(unsigned_part(text)) as int)
    } else {
        digits_value(unsigned_part(text)) as int
    }
}

/// The port that a text stands for, or why it stands for none.
pub open spec fn parsed_port(text: Seq<char>) -> Result<u16, PortError> {
    if !is_number(text) {
        Err(PortError::NotANumber)
    } else if 0 <= number_value(text) <= MAX_PORT {
        Ok(number_value(text) as u16)
    } else {
        Err(PortError::OutOfRange)
    }
}

/// The text of the decimal digit `d`.
fn digit_str(d: u16) -> (s: &'static str)
    requires
        d < 10,
    ensures
        s@ == digit_text(d as nat),
{
    match d {
        0 => "0",
        1 => "1",
        2 => "2",
        3 => "3",
        4 => "4",
        5 => "5",
        6 => "6",
        7 => "7",
        8 => "8",
        _ => "9",
    }
}

/// Writes a port number in decimal, without sign and without leading zeros.
pub fn port_text(port: u16) -> (s: String)
    ensures
        s@ == decimal_text(port as nat),
    decreases port,
{
    if port < 10 {
        String::from_str(digit_str(port))
    } else {
        let mut s = port_text(port / 10);
        s.append(digit_str(port % 10));
        s
    }
}

/// Reads a port number from the text of an argument.
///
/// The text is accepted when it is a number from 0 to 65535: an optional
/// sign, then decimal digits, leading zeros allowed.
pub fn parse_port(text: &str) -> (r: Result<u16, PortError>)
    ensures
        r == parsed_port(text@),
{
    let mut first = true;
    let mut negative = false;
    let mut any_digit = false;
    let mut value: u32 = 0;
    let mut beyond = false;
    for c in it: text.chars()
        invariant
            it.seq() == text@,
            first == (it.index() == 0),
            negative == (it.index() > 0 && text@[0] == '-'),
            any_digit == (unsigned_part(text@.take(it.index() as int)).len() > 0),
            forall|j: int|
                0 <= j < unsigned_part(text@.take(it.index() as int)).len() ==> is_digit(
                    #[trigger] unsigned_part(text@.take(it.index() as int))[j],
                ),
            beyond == (digits_value(unsigned_part(text@.take(it.index() as int))) > MAX_PORT),
            !beyond ==> value == digits_value(unsigned_part(text@.take(it.index() as int))),
    {
        let ghost i = it.index() as int;
        let ghost seen = unsigned_part(text@.take(i));
        let ghost longer = unsigned_part(text@.take(i + 1));
        assert(c == text@[i]);
        if first && (c == '+' || c == '-') {
            negative = c == '-';
            assert(longer =~= Seq::<char>::empty());
        } else if c >= '0' && c <= '9' {
            let digit: u32 = c as u32 - '0' as u32;
            proof {
                assert(has_sign(text@.take(i + 1)) == has_sign(text@.take(i)));
                assert(longer =~= seen.push(c));
                assert(longer.drop_last() =~= seen);
                assert(longer.last() == c);
            }
            if !beyond {
                value = value * 10 + digit;
                beyond = value > MAX_PORT as u32;
            }
            any_digit = true;
        } else {
            proof {
                let digits = unsigned_part(text@);
                let at = if has_sign(text@) { i - 1 } else { i };
                assert(digits[at] == c);
            }
            return Err(PortError::NotANumber);
        }
        first = false;
    }
    assert(text@.take(text@.len() as int) =~= text@);
    if !any_digit {
        Err(PortError::NotANumber)
    } else if beyond || (negative && value != 0) {
        Err(PortError::OutOfRange)
    } else {
        Ok(value as u16)
    }
}

/// The text of a digit is one character, the digit itself.
proof fn lemma_digit_text(d: nat)
    requires
        d < 10,
    ensures
        digit_text(d).len() == 1,
        is_digit(digit_text(d)[0]),
        digit_value(digit_text(d)[0]) == d,
{
    reveal_strlit("0");
    reveal_strlit("1");
    reveal_strlit("2");
    reveal_strlit("3");
    reveal_strlit("4");
    reveal_strlit("5");
    reveal_strlit("6");
    reveal_strlit("7");
    reveal_strlit("8");
    reveal_strlit("9");
}

/// The decimal text of a number is a run of digits that stands for that
/// number, and it begins with a zero only where the number is 0.
pub proof fn lemma_decimal_text_value(n: nat)
    ensures
        decimal_text(n).len() > 0,
        forall|i: int| 0 <= i < decimal_text(n).len() ==> is_digit(#[trigger] decimal_text(n)[i]),
        digits_value(decimal_text(n)) == n,
        n > 0 ==> decimal_text(n)[0] != '0',
        n >= 10 ==> decimal_text(n).len() >= 2,
    decreases n,
{
    let text = decimal_text(n);
    if n < 10 {
        lemma_digit_text(n);
        assert(text.drop_last() =~= Seq::<char>::empty());
        assert(digits_value(text.drop_last()) == 0);
        assert(digits_value(text) == digits_value(text.drop_last()) * 10 + digit_value(
            text.last(),
        ));
    } else {
        lemma_decimal_text_value(n / 10);
        lemma_digit_text(n % 10);
        assert(text.drop_last() =~= decimal_text(n / 10));
        assert(text.last() == digit_text(n % 10)[0]);
        assert(text[0] == decimal_text(n / 10)[0]);
        assert(digits_value(text) == digits_value(text.drop_last()) * 10 + digit_value(
            text.last(),
        ));
    }
}

/// Reading the decimal text of a port gives that port back.
pub proof fn lemma_port_text_round_trip(port: u16)
    ensures
        parsed_port(decimal_text(port as nat)) == Ok::<u16, PortError>(port),
{
    lemma_decimal_text_value(port as nat);
    let text = decimal_text(port as nat);
    assert(is_digit(text[0]));
    assert(!has_sign(text));
}

} // verus!
