//! Text helpers: comparing strings, reading and writing platform ids.

use vstd::prelude::*;
use vstd::string::*;

verus! {

/// Whether two strings hold the same characters.
pub fn same_text(a: &str, b: &str) -> (r: bool)
    ensures
        r == (a@ == b@),
{
    let n = a.unicode_len();
    if n != b.unicode_len() {
        return false;
    }
    let mut i: usize = 0;
    while i < n
        invariant
            n == a@.len(),
            n == b@.len(),
            i <= n,
            forall|j: int| 0 <= j < i ==> a@[j] == b@[j],
        decreases n - i,
    {
        if a.get_char(i) != b.get_char(i) {
            return false;
        }
        i = i + 1;
    }
    assert(a@ =~= b@);
    true
}


/// Why a platform id could not be read from its stored text.
#[derive(Debug, Clone, Copy, PartialEq, Eq, Structural)]
pub enum ParseIdError {
    /// The text is empty.
    Empty,
    /// The text holds something other than decimal digits.
    InvalidDigit,
    /// The number does not fit in 64 bits.
    Overflow,
}

impl ParseIdError {
    /// The message that this failure is reported with.
    pub fn message(&self) -> (r: String)
        ensures
            r@ == self.message_spec(),
    {
        match self {
            ParseIdError::Empty => String::from_str("cannot parse integer from empty string"),
            ParseIdError::InvalidDigit => String::from_str("invalid digit found in string"),
            ParseIdError::Overflow => String::from_str("number too large to fit in target type"),
        }
    }

    pub open spec fn message_spec(&self) -> Seq<char> {
        match self {
            ParseIdError::Empty => "cannot parse integer from empty string"@,
            ParseIdError::InvalidDigit => "invalid digit found in string"@,
            ParseIdError::Overflow => "number too large to fit in target type"@,
        }
    }
}

pub open spec fn is_digit(c: char) -> bool {
    '0' <= c <= '9'
}

pub open spec fn digit_value(c: char) -> nat {
    (c as int - '0' as int) as nat
}

/// Reads the digits `s` onto the value `acc` read so far, left to right; the
/// first digit that is not one, or that takes the value past `u64::MAX`, ends
/// the reading with that failure.
pub open spec fn read_digits(s: Seq<char>, acc: nat) -> Result<nat, ParseIdError>
    decreases s.len(),
{
    if s.len() == 0 {
        Ok(acc)
    } else if !is_digit(s[0]) {
        Err(ParseIdError::InvalidDigit)
    } else if acc * 10 + digit_value(s[0]) > u64::MAX {
        Err(ParseIdError::Overflow)
    } else {
        read_digits(s.drop_first(), acc * 10 + digit_value(s[0]))
    }
}

/// The id that the text `s` denotes: decimal digits, with an optional leading `+`.
pub open spec fn id_of(s: Seq<char>) -> Result<u64, ParseIdError> {
    if s.len() == 0 {
        Err(ParseIdError::Empty)
    } else if s.len() == 1 && s[0] == '+' {
        Err(ParseIdError::InvalidDigit)
    } else {
        let digits = if s[0] == '+' {
            s.drop_first()
        } else {
            s
        };
        match read_digits(digits, 0) {
            Ok(v) => Ok(v as u64),
            Err(e) => Err(e),
        }
    }
}

proof fn lemma_read_digits_bounded(s: Seq<char>, acc: nat)
    requires
        acc <= u64::MAX,
    ensures
        read_digits(s, acc) matches Ok(v) ==> v <= u64::MAX,
    decreases s.len(),
{
    if s.len() > 0 && is_digit(s[0]) && acc * 10 + digit_value(s[0]) <= u64::MAX {
        lemma_read_digits_bounded(s.drop_first(), acc * 10 + digit_value(s[0]));
    }
}

/// One step of [`read_digits`]: the digit `c` read onto `acc`.
fn read_step(acc: u64, c: char) -> (r: Result<u64, ParseIdError>)
    ensures
        !is_digit(c) ==> r == Err::<u64, ParseIdError>(ParseIdError::InvalidDigit),
        is_digit(c) && acc * 10 + digit_value(c) > u64::MAX ==> r == Err::<u64, ParseIdError>(
            ParseIdError::Overflow,
        ),
        is_digit(c) && acc * 10 + digit_value(c) <= u64::MAX ==> r == Ok::<u64, ParseIdError>(
            (acc * 10 + digit_value(c)) as u64,
        ),
{
    if c < '0' || c > '9' {
        return Err(ParseIdError::InvalidDigit);
    }
    let d: u64 = (c as u32 - '0' as u32) as u64;
    match acc.checked_mul(10) {
        Some(m) => match m.checked_add(d) {
            Some(v) => Ok(v),
            None => Err(ParseIdError::Overflow),
        },
        None => Err(ParseIdError::Overflow),
    }
}

/// Reads a platform id from its stored text.
pub fn parse_id(s: &str) -> (r: Result<u64, ParseIdError>)
    ensures
        r == id_of(s@),
{
    let n = s.unicode_len();
    if n == 0 {
        return Err(ParseIdError::Empty);
    }
    let first = s.get_char(0);
    if n == 1 && first == '+' {
        return Err(ParseIdError::InvalidDigit);
    }
    let start: usize = if first == '+' { 1 } else { 0 };
    let ghost digits = if first == '+' { s@.drop_first() } else { s@ };
    assert(digits =~= s@.skip(start as int));
    let mut acc: u64 = 0;
    let mut i: usize = start;
    while i < n
        invariant
            n == s@.len(),
            start <= i <= n,
            digits == s@.skip(start as int),
            s@.len() > 0,
            !(s@.len() == 1 && s@[0] == '+'),
            digits == (if s@[0] == '+' { s@.drop_first() } else { s@ }),
            read_digits(digits, 0) == read_digits(s@.skip(i as int), acc as nat),
        decreases n - i,
    {
        let c = s.get_char(i);
        assert(s@.skip(i as int)[0] == c);
        assert(s@.skip(i as int).drop_first() =~= s@.skip(i + 1));
        match read_step(acc, c) {
            Ok(v) => {
                acc = v;
            },
            Err(e) => {
                return Err(e);
            },
        }
        i = i + 1;
    }
    assert(s@.skip(n as int) =~= Seq::<char>::empty());
    proof {
        lemma_read_digits_bounded(digits, 0);
    }
    Ok(acc)
}


pub open spec fn digit_char(d: nat) -> char {
    ('0' as int + d) as char
}

/// The decimal writing of `n`, without leading zeros.
pub open spec fn decimal_text(n: nat) -> Seq<char>
    decreases n,
{
    if n < 10 {
        seq![digit_char(n)]
    } else {
        decimal_text(n / 10).push(digit_char(n % 10))
    }
}

fn digit_str(d: u64) -> (r: &'static str)
    requires
        d < 10,
    ensures
        r@ == seq![digit_char(d as nat)],
{
    proof {
        reveal_strlit("0");
        reveal_strlit("1");
        reveal_strlit("2");
        reveal_strlit("3");
        reveal_strlit("4");
        reveal_strlit("5");
        reveal_strlit("6");
        reveal_strlit("7");
        reveal_strlit("8");
        reveal_strlit("9");
    }
    match d {
        0 => "0",
        1 => "1",
        2 => "2",
        3 => "3",
        4 => "4",
        5 => "5",
        6 => "6",
        7 => "7",
        8 => "8",
        _ => "9",
    }
}

/// Writes `n` in decimal.
pub fn decimal(n: u64) -> (r: String)
    ensures
        r@ == decimal_text(n as nat),
    decreases n,
{
    if n < 10 {
        String::from_str(digit_str(n))
    } else {
        let mut s = decimal(n / 10);
        s.append(digit_str(n % 10));
        s
    }
}

/// How a message mentions the role `id`.
pub open spec fn role_mention_text(id: u64) -> Seq<char> {
    "<@&"@ + decimal_text(id as nat) + ">"@
}

/// The mention of the role `id`, as a message shows it.
pub fn role_mention(id: u64) -> (r: String)
    ensures
        r@ == role_mention_text(id),
{
    let mut s = String::from_str("<@&");
    let digits = decimal(id);
    s.append(digits.as_str());
    s.append(">");
    s
}

} // verus!
