//! The entry dispatcher: from the positional arguments to the pipeline that
//! runs.

use vstd::prelude::*;
use vstd::string::*;
use crate::text::{chars_of, is_token, texts_of};

verus! {

/// The pipeline that the arguments select.
#[derive(Clone, Copy, Debug, PartialEq, Eq, Structural)]
pub enum Command {
    /// Sample `times` prices and persist their mean.
    Cache { times: usize },
    /// Print what the last sampling run persisted.
    Read,
    /// Run the aggregation.
    Distributed,
}

/// Why the arguments select no pipeline.
#[derive(Clone, Copy, Debug, PartialEq, Eq, Structural)]
pub enum ArgError {
    /// There is no first positional argument.
    MissingMode,
    /// The first positional argument is none of the three mode tokens.
    UnknownMode,
    /// The mode is cache and there is no third positional argument.
    MissingTimes,
    /// The third positional argument is not `--times=` and a count.
    MalformedTimes,
}

/// Whether a character is a decimal digit.
pub open spec fn is_digit(c: char) -> bool {
    '0' <= c && c <= '9'
}

/// The number a decimal digit stands for.
pub open spec fn digit_value(c: char) -> nat {
    if is_digit(c) {
        (c as int - '0' as int) as nat
    } else {
        0
    }
}

/// The number a sequence of decimal digits stands for.
pub open spec fn decimal_value(digits: Seq<char>) -> nat
    decreases digits.len(),
{
    if digits.len() == 0 {
        0
    } else {
        decimal_value(digits.drop_last()) * 10 + digit_value(digits.last())
    }
}

/// Whether every character of a sequence is a decimal digit.
pub open spec fn all_digits(digits: Seq<char>) -> bool {
    forall|i: int| 0 <= i < digits.len() ==> is_digit(#[trigger] digits[i])
}

/// A text without its leading plus sign, if it has one.
pub open spec fn unsigned_part(text: Seq<char>) -> Seq<char> {
    if text.len() > 0 && text[0] == '+' {
        text.drop_first()
    } else {
        text
    }
}

/// The count that a text stands for: an optional plus sign and then one or
/// more decimal digits and nothing else, of a value that a `usize` holds.
pub open spec fn count_of(text: Seq<char>) -> Option<usize> {
    let digits = unsigned_part(text);
    if digits.len() > 0 && all_digits(digits) && decimal_value(digits) <= usize::MAX {
        Some(decimal_value(digits) as usize)
    } else {
        None
    }
}

/// The count that a times token stands for: `--times=` and then a count.
pub open spec fn times_of(token: Seq<char>) -> Option<usize> {
    if "--times="@.is_prefix_of(token) {
        count_of(token.skip("--times="@.len() as int))
    } else {
        None
    }
}

/// What the positional arguments select. The first is the mode token. For the
/// cache mode the third is the times token; anything else is passed over.
pub open spec fn command_of(positionals: Seq<Seq<char>>) -> Result<Command, ArgError> {
    if positionals.len() < 1 {
        Err(ArgError::MissingMode)
    } else if positionals[0] == "--mode=cache"@ {
        if positionals.len() < 3 {
            Err(ArgError::MissingTimes)
        } else {
            match times_of(positionals[2]) {
                Some(times) => Ok(Command::Cache { times }),
                None => Err(ArgError::MalformedTimes),
            }
        }
    } else if positionals[0] == "--mode=read"@ {
        Ok(Command::Read)
    } else if positionals[0] == "--mode=distributed"@ {
        Ok(Command::Distributed)
    } else {
        Err(ArgError::UnknownMode)
    }
}

/// Appending a digit multiplies by ten and adds the digit.
proof fn decimal_value_step(digits: Seq<char>, upto: int)
    requires
        0 <= upto < digits.len(),
    ensures
        decimal_value(digits.take(upto + 1)) == decimal_value(digits.take(upto)) * 10
            + digit_value(digits[upto]),
{
    let longer = digits.take(upto + 1);
    assert(longer.drop_last() == digits.take(upto));
    assert(longer.last() == digits[upto]);
}

/// A longer sequence of digits stands for no smaller a number.
proof fn decimal_value_grows(digits: Seq<char>, upto: int)
    requires
        0 <= upto <= digits.len(),
    ensures
        decimal_value(digits.take(upto)) <= decimal_value(digits),
    decreases digits.len() - upto,
{
    if upto < digits.len() {
        decimal_value_step(digits, upto);
        decimal_value_grows(digits, upto + 1);
    } else {
        assert(digits.take(upto) == digits);
    }
}

/// The count that the characters from `from` on stand for.
fn count_from(chars: &Vec<char>, from: usize) -> (count: Option<usize>)
    requires
        from <= chars.len(),
    ensures
        count == count_of(chars@.skip(from as int)),
{
    let ghost text = chars@.skip(from as int);
    let mut start: usize = from;
    if start < chars.len() && chars[start] == '+' {
        start = start + 1;
    }
    let ghost digits = chars@.skip(start as int);
    assert(digits == unsigned_part(text));
    if start == chars.len() {
        return None;
    }
    let mut value: usize = 0;
    let mut i: usize = start;
    while i < chars.len()
        invariant
            start <= i <= chars.len(),
            digits == chars@.skip(start as int),
            digits == unsigned_part(chars@.skip(from as int)),
            all_digits(digits.take(i - start)),
            value == decimal_value(digits.take(i - start)),
        decreases chars.len() - i,
    {
        let c = chars[i];
        assert(digits[i - start] == c);
        if !('0' <= c && c <= '9') {
            return None;
        }
        let digit: usize = (c as u32 - '0' as u32) as usize;
        proof {
            decimal_value_step(digits, i - start);
            decimal_value_grows(digits, i - start + 1);
        }
        let tens = match value.checked_mul(10) {
            Some(tens) => tens,
            None => {
                return None;
            },
        };
        value = match tens.checked_add(digit) {
            Some(sum) => sum,
            None => {
                return None;
            },
        };
        assert(all_digits(digits.take(i + 1 - start))) by {
            assert forall|k: int| 0 <= k < i + 1 - start implies is_digit(
                #[trigger] digits.take(i + 1 - start)[k],
            ) by {
                if k < i - start {
                    assert(digits.take(i - start)[k] == digits[k]);
                }
            }
        }
        i = i + 1;
    }
    assert(digits.take(i - start) == digits);
    Some(value)
}

/// Reads a count: an optional plus sign and then decimal digits.
pub fn parse_count(text: &str) -> (count: Option<usize>)
    ensures
        count == count_of(text@),
{
    let chars = chars_of(text);
    assert(chars@.skip(0) == chars@);
    count_from(&chars, 0)
}

/// Reads a times token: `--times=` and then a count.
pub fn parse_times(token: &str) -> (times: Option<usize>)
    ensures
        times == times_of(token@),
{
    let chars = chars_of(token);
    let prefix = chars_of("--times=");
    proof {
        reveal_strlit("--times=");
    }
    if chars.len() < prefix.len() {
        return None;
    }
    let mut i: usize = 0;
    while i < prefix.len()
        invariant
            i <= prefix.len() <= chars.len(),
            chars@ == token@,
            prefix@ == "--times="@,
            chars@.take(i as int) == prefix@.take(i as int),
        decreases prefix.len() - i,
    {
        if chars[i] != prefix[i] {
            assert(chars@.subrange(0, prefix.len() as int)[i as int] != prefix@[i as int]);
            return None;
        }
        assert(chars@.take(i + 1) == chars@.take(i as int).push(chars@[i as int]));
        assert(prefix@.take(i + 1) == prefix@.take(i as int).push(prefix@[i as int]));
        i = i + 1;
    }
    assert(prefix@.take(prefix.len() as int) == prefix@);
    assert(chars@.take(prefix.len() as int) == chars@.subrange(0, prefix.len() as int));
    count_from(&chars, prefix.len())
}

/// Selects the pipeline from the positional arguments, the program's name
/// not among them.
pub fn parse_command(positionals: &Vec<String>) -> (command: Result<Command, ArgError>)
    ensures
        command == command_of(texts_of(positionals@)),
{
    let ghost texts = texts_of(positionals@);
    if positionals.len() < 1 {
        return Err(ArgError::MissingMode);
    }
    assert(texts[0] == positionals@[0]@);
    if is_token(&positionals[0], "--mode=cache") {
        if positionals.len() < 3 {
            return Err(ArgError::MissingTimes);
        }
        assert(texts[2] == positionals@[2]@);
        match parse_times(positionals[2].as_str()) {
            Some(times) => Ok(Command::Cache { times }),
            None => Err(ArgError::MalformedTimes),
        }
    } else if is_token(&positionals[0], "--mode=read") {
        Ok(Command::Read)
    } else if is_token(&positionals[0], "--mode=distributed") {
        Ok(Command::Distributed)
    } else {
        Err(ArgError::UnknownMode)
    }
}

impl ArgError {
    /// The diagnostic for the error channel.
    pub fn message(&self) -> (text: String)
        ensures
            text@ == (match *self {
                ArgError::MissingMode => "Missing mode argument"@,
                ArgError::UnknownMode => "Invalid mode"@,
                ArgError::MissingTimes => "Missing times argument"@,
                ArgError::MalformedTimes => "Invalid times argument"@,
            }),
    {
        match self {
            ArgError::MissingMode => String::from_str("Missing mode argument"),
            ArgError::UnknownMode => String::from_str("Invalid mode"),
            ArgError::MissingTimes => String::from_str("Missing times argument"),
            ArgError::MalformedTimes => String::from_str("Invalid times argument"),
        }
    }

    /// The status the process exits with: never zero.
    pub fn exit_code(&self) -> (code: i32)
        ensures
            code == 1,
    {
        1
    }
}

} // verus!
