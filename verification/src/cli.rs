//! The command-line arguments of the client program: an endpoint and an amount
//! of requests.
use vstd::prelude::*;

verus! {

/// The arguments of the client program.
#[derive(Debug)]
pub struct CliArgs {
    pub endpoint: String,
    /// The amount of requests per unit of time.
    pub req_amount: i32,
}

/// Why the arguments were refused.
#[derive(Debug, PartialEq, Eq, Structural)]
pub enum CliErrors {
    /// The amount is not an `i32` in decimal.
    InvalidArgumentFormat,
    /// Fewer than two arguments.
    MissingArguments,
    /// An argument is empty or only whitespace.
    EmptyArguments,
}

/// Whether `c` has the Unicode `White_Space` property, as the Unicode Character
/// Database (PropList.txt) lists it: U+0009 to U+000D, U+0020, U+0085, U+00A0,
/// U+1680, U+2000 to U+200A, U+2028, U+2029, U+202F, U+205F and U+3000.
pub open spec fn is_white_space(c: char) -> bool {
    let n: u32 = c as u32;
    ||| 0x9 <= n <= 0xD
    ||| n == 0x20
    ||| n == 0x85
    ||| n == 0xA0
    ||| n == 0x1680
    ||| 0x2000 <= n <= 0x200A
    ||| n == 0x2028
    ||| n == 0x2029
    ||| n == 0x202F
    ||| n == 0x205F
    ||| n == 0x3000
}

/// `char::is_whitespace`: its documentation defines it as the Unicode
/// `White_Space` property of the character.
#[verifier::external_body]
fn char_is_whitespace(c: char) -> (r: bool)
    ensures
        r == is_white_space(c),
{
    c.is_whitespace()
}

/// Whether `c` is one of the ASCII digits `0` to `9`.
pub open spec fn is_decimal_digit(c: char) -> bool {
    '0' <= c && c <= '9'
}

/// The value of a string of decimal digits.
pub open spec fn decimal_value(digits: Seq<char>) -> int
    decreases digits.len(),
{
    if digits.len() == 0 {
        0
    } else {
        decimal_value(digits.drop_last()) * 10 + (digits.last() as int - '0' as int)
    }
}

/// Whether `s` is one or more decimal digits.
pub open spec fn is_digit_string(s: Seq<char>) -> bool {
    s.len() > 0 && forall|i: int| 0 <= i < s.len() ==> is_decimal_digit(#[trigger] s[i])
}

/// `s` without its leading sign, if it has one.
pub open spec fn unsigned_part(s: Seq<char>) -> Seq<char> {
    if s.len() > 0 && (s[0] == '-' || s[0] == '+') {
        s.drop_first()
    } else {
        s
    }
}

/// What `str::parse::<i32>` gives, as its documentation states it: an optional
/// `+` or `-` sign followed by at least one decimal digit and nothing else,
/// whose value fits in an `i32`.
pub open spec fn parse_i32_spec(s: Seq<char>) -> Option<i32> {
    let digits = unsigned_part(s);
    let value: int = if s.len() > 0 && s[0] == '-' {
        -decimal_value(digits)
    } else {
        decimal_value(digits)
    };
    if !is_digit_string(digits) {
        None
    } else if value < i32::MIN || value > i32::MAX {
        None
    } else {
        Some(value as i32)
    }
}

/// `str::parse::<i32>`, with its error read as `None`.
#[verifier::external_body]
fn parse_i32(s: &str) -> (r: Option<i32>)
    ensures
        r == parse_i32_spec(s@),
{
    s.parse::<i32>().ok()
}

/// Whether `s` is empty or only whitespace, that is, whether `str::trim` leaves
/// nothing of it.
pub open spec fn is_blank(s: Seq<char>) -> bool {
    forall|i: int| 0 <= i < s.len() ==> is_white_space(#[trigger] s[i])
}

/// Whether `s` is empty or only whitespace.
pub fn blank(s: &str) -> (r: bool)
    ensures
        r == is_blank(s@),
{
    let n: usize = s.unicode_len();
    let mut i: usize = 0;
    while i < n
        invariant
            n == s@.len(),
            i <= n,
            forall|j: int| 0 <= j < i ==> is_white_space(#[trigger] s@[j]),
        decreases n - i,
    {
        if !char_is_whitespace(s.get_char(i)) {
            return false;
        }
        i = i + 1;
    }
    true
}

/// Whether some argument is blank.
pub open spec fn some_blank(args: Seq<String>) -> bool {
    exists|i: int| 0 <= i < args.len() && is_blank(#[trigger] args[i]@)
}

impl CliArgs {
    /// Reads the arguments of the program (its name excluded): the endpoint,
    /// then the amount of requests. Refused, in this order: fewer than two
    /// arguments; a blank argument; an amount that is not an `i32`.
    pub fn format_usr_args(args: Vec<String>) -> (r: Result<CliArgs, CliErrors>)
        ensures
            args.len() < 2 ==> r == Err::<CliArgs, CliErrors>(CliErrors::MissingArguments),
            args.len() >= 2 && some_blank(args@) ==> r == Err::<CliArgs, CliErrors>(CliErrors::EmptyArguments),
            args.len() >= 2 && !some_blank(args@) && parse_i32_spec(args@[1]@) is None
                ==> r == Err::<CliArgs, CliErrors>(CliErrors::InvalidArgumentFormat),
            args.len() >= 2 && !some_blank(args@) && parse_i32_spec(args@[1]@) is Some ==> (r matches Ok(a)
                && a.endpoint@ == args@[0]@ && a.req_amount == parse_i32_spec(args@[1]@)->0),
    {
        if args.len() < 2 {
            return Err(CliErrors::MissingArguments);
        }
        let mut i: usize = 0;
        while i < args.len()
            invariant
                2 <= args.len(),
                i <= args.len(),
                forall|j: int| 0 <= j < i ==> !is_blank(#[trigger] args@[j]@),
            decreases args.len() - i,
        {
            if blank(args[i].as_str()) {
                return Err(CliErrors::EmptyArguments);
            }
            i = i + 1;
        }
        match parse_i32(args[1].as_str()) {
            Some(freq) => Ok(CliArgs { endpoint: args[0].clone(), req_amount: freq }),
            None => Err(CliErrors::InvalidArgumentFormat),
        }
    }
}

} // verus!
