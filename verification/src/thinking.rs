//! Thinking levels given by name, as builder options, harness setters and
//! turn-preparation hooks accept them.

use vstd::prelude::*;

use crate::error::{err_view, ErrorView, PyErrorKind, SdkError};
use crate::text::{
    ascii_lower, chars_eq_str, concat3, lower_chars, string_from,
};

verus! {

/// How much reasoning the model is asked to do.
#[derive(Debug, Clone, Copy, PartialEq, Eq)]
pub enum ThinkingLevel {
    Off,
    Minimal,
    Low,
    Medium,
    High,
    XHigh,
    Budget(u32),
}

/// Why a decimal number could not be read (as Rust's `ParseIntError` says).
#[derive(Debug, Clone, Copy, PartialEq, Eq)]
pub enum IntParseError {
    Empty,
    InvalidDigit,
    PosOverflow,
}

/// The text Rust prints for a [`IntParseError`].
pub open spec fn int_parse_error_text(e: IntParseError) -> Seq<char> {
    match e {
        IntParseError::Empty => "cannot parse integer from empty string"@,
        IntParseError::InvalidDigit => "invalid digit found in string"@,
        IntParseError::PosOverflow => "number too large to fit in target type"@,
    }
}

/// Whether `c` is an ASCII decimal digit.
pub open spec fn is_digit(c: char) -> bool {
    '0' <= c && c <= '9'
}

/// The value of a decimal digit.
pub open spec fn digit_value(c: char) -> int {
    (c as int) - ('0' as int)
}

/// Reads the digits `d[i..]` on top of the value `acc` read so far: the
/// first non-digit is an invalid digit, unless the value has already grown
/// past `u32::MAX`.
pub open spec fn scan_digits(d: Seq<char>, i: int, acc: int) -> Result<u32, IntParseError>
    decreases d.len() - i,
{
    if i >= d.len() {
        Ok(acc as u32)
    } else if !is_digit(d[i]) {
        Err(IntParseError::InvalidDigit)
    } else if acc * 10 + digit_value(d[i]) > u32::MAX {
        Err(IntParseError::PosOverflow)
    } else {
        scan_digits(d, i + 1, acc * 10 + digit_value(d[i]))
    }
}

/// Rust's `str::parse::<u32>()`: an optional `+`, then at least one decimal
/// digit, with a value that fits 32 bits.
pub open spec fn spec_parse_u32(s: Seq<char>) -> Result<u32, IntParseError> {
    if s.len() == 0 {
        Err(IntParseError::Empty)
    } else if (s[0] == '+' || s[0] == '-') && s.len() == 1 {
        Err(IntParseError::InvalidDigit)
    } else if s[0] == '+' {
        scan_digits(s, 1, 0)
    } else {
        scan_digits(s, 0, 0)
    }
}

/// Reads a decimal `u32` from `s[start..]`, as `str::parse::<u32>()` does.
pub fn parse_u32(s: &Vec<char>, start: usize) -> (r: Result<u32, IntParseError>)
    requires
        start <= s.len(),
    ensures
        r == spec_parse_u32(s@.skip(start as int)),
{
    let ghost d = s@.skip(start as int);
    let n = s.len() - start;
    if n == 0 {
        return Err(IntParseError::Empty);
    }
    if (s[start] == '+' || s[start] == '-') && n == 1 {
        return Err(IntParseError::InvalidDigit);
    }
    let mut i: usize = if s[start] == '+' {
        start + 1
    } else {
        start
    };
    let mut acc: u32 = 0;
    assert(spec_parse_u32(d) == scan_digits(d, (i - start) as int, acc as int));
    while i < s.len()
        invariant
            start <= i <= s.len(),
            d == s@.skip(start as int),
            spec_parse_u32(d) == scan_digits(d, (i - start) as int, acc as int),
        decreases s.len() - i,
    {
        let c = s[i];
        assert(d[(i - start) as int] == c);
        if !('0' <= c && c <= '9') {
            return Err(IntParseError::InvalidDigit);
        }
        let dv: u32 = (c as u32) - ('0' as u32);
        if acc > 429496729 || (acc == 429496729 && dv > 5) {
            assert(acc * 10 + dv > u32::MAX) by (nonlinear_arith)
                requires
                    acc > 429496729 || (acc == 429496729 && dv > 5),
            ;
            return Err(IntParseError::PosOverflow);
        }
        assert(acc * 10 + dv <= u32::MAX) by (nonlinear_arith)
            requires
                !(acc > 429496729 || (acc == 429496729 && dv > 5)),
                dv <= 9,
        ;
        acc = acc * 10 + dv;
        i += 1;
    }
    Ok(acc)
}

/// The text of an [`IntParseError`], as Rust prints it.
pub fn int_parse_error_message(e: IntParseError) -> (r: String)
    ensures
        r@ == int_parse_error_text(e),
{
    match e {
        IntParseError::Empty => string_from("cannot parse integer from empty string"),
        IntParseError::InvalidDigit => string_from("invalid digit found in string"),
        IntParseError::PosOverflow => string_from("number too large to fit in target type"),
    }
}

/// The level a name stands for, ignoring ASCII case, among the named levels;
/// `none` is accepted as `off` when `none_is_off` holds.
pub open spec fn named_level(lower: Seq<char>, none_is_off: bool) -> Option<ThinkingLevel> {
    if lower == "off"@ || (none_is_off && lower == "none"@) {
        Some(ThinkingLevel::Off)
    } else if lower == "minimal"@ {
        Some(ThinkingLevel::Minimal)
    } else if lower == "low"@ {
        Some(ThinkingLevel::Low)
    } else if lower == "medium"@ {
        Some(ThinkingLevel::Medium)
    } else if lower == "high"@ {
        Some(ThinkingLevel::High)
    } else if lower == "xhigh"@ {
        Some(ThinkingLevel::XHigh)
    } else {
        None
    }
}

fn named_level_of(lower: &Vec<char>, none_is_off: bool) -> (r: Option<ThinkingLevel>)
    ensures
        r == named_level(lower@, none_is_off),
{
    if chars_eq_str(lower, "off") || (none_is_off && chars_eq_str(lower, "none")) {
        Some(ThinkingLevel::Off)
    } else if chars_eq_str(lower, "minimal") {
        Some(ThinkingLevel::Minimal)
    } else if chars_eq_str(lower, "low") {
        Some(ThinkingLevel::Low)
    } else if chars_eq_str(lower, "medium") {
        Some(ThinkingLevel::Medium)
    } else if chars_eq_str(lower, "high") {
        Some(ThinkingLevel::High)
    } else if chars_eq_str(lower, "xhigh") {
        Some(ThinkingLevel::XHigh)
    } else {
        None
    }
}

/// The thinking level a turn-preparation hook names (`off`/`none`, `minimal`,
/// `low`, `medium`, `high`, `xhigh`, in any ASCII case), if any.
pub fn parse_hook_thinking_level(s: &str) -> (r: Option<ThinkingLevel>)
    ensures
        r == named_level(ascii_lower(s@), true),
{
    let lower = lower_chars(s);
    named_level_of(&lower, true)
}

/// The prefix that introduces an explicit token budget.
pub open spec fn budget_prefix() -> Seq<char> {
    "budget:"@
}

/// The message of the error for an unknown thinking level name.
pub open spec fn invalid_level_message(s: Seq<char>) -> Seq<char> {
    "invalid thinking level: '"@ + s
        + "'. Use: off, minimal, low, medium, high, xhigh, or budget:<tokens>"@
}

/// The level a builder or harness setter reads from `s`: a named level in any
/// ASCII case, or `budget:<tokens>`; anything else is a `ValueError`.
pub open spec fn spec_parse_thinking_level(s: Seq<char>) -> Result<ThinkingLevel, ErrorView> {
    let lower = ascii_lower(s);
    match named_level(lower, false) {
        Some(l) => Ok(l),
        None => if lower.len() >= 7 && lower.take(7) == budget_prefix() {
            match spec_parse_u32(lower.skip(7)) {
                Ok(n) => Ok(ThinkingLevel::Budget(n)),
                Err(e) => Err(
                    err_view(PyErrorKind::ValueError, "invalid budget value: "@ + int_parse_error_text(e)),
                ),
            }
        } else {
            Err(err_view(PyErrorKind::ValueError, invalid_level_message(s)))
        },
    }
}

/// The mathematical form of a level-or-error result.
pub open spec fn level_result_view(r: Result<ThinkingLevel, SdkError>) -> Result<
    ThinkingLevel,
    ErrorView,
> {
    match r {
        Ok(l) => Ok(l),
        Err(e) => Err(e@),
    }
}

fn has_budget_prefix(lower: &Vec<char>) -> (r: bool)
    ensures
        r == (lower@.len() >= 7 && lower@.take(7) == budget_prefix()),
{
    let p = crate::text::chars_of("budget:");
    proof {
        reveal_strlit("budget:");
    }
    if lower.len() < 7 {
        return false;
    }
    let mut i: usize = 0;
    while i < 7
        invariant
            p@ == budget_prefix(),
            p@.len() == 7,
            lower@.len() >= 7,
            i <= 7,
            forall|j: int| 0 <= j < i ==> lower@[j] == p@[j],
        decreases 7 - i,
    {
        if lower[i] != p[i] {
            assert(lower@.take(7)[i as int] != budget_prefix()[i as int]);
            return false;
        }
        i += 1;
    }
    assert(lower@.take(7) =~= budget_prefix());
    true
}

/// Reads a thinking level (`off`, `minimal`, `low`, `medium`, `high`, `xhigh`
/// or `budget:<tokens>`, in any ASCII case).
///
/// ASCII case folding gives the same answer as full Unicode lower-casing here:
/// no non-ASCII character lower-cases to a letter of these names.
pub fn parse_thinking_level(s: &str) -> (r: Result<ThinkingLevel, SdkError>)
    ensures
        level_result_view(r) == spec_parse_thinking_level(s@),
{
    let lower = lower_chars(s);
    match named_level_of(&lower, false) {
        Some(l) => Ok(l),
        None => if has_budget_prefix(&lower) {
            match parse_u32(&lower, 7) {
                Ok(n) => Ok(ThinkingLevel::Budget(n)),
                Err(e) => {
                    let mut m = string_from("invalid budget value: ");
                    let t = int_parse_error_message(e);
                    m.append(t.as_str());
                    Err(SdkError::value_error(m))
                },
            }
        } else {
            Err(
                SdkError::value_error(
                    concat3(
                        "invalid thinking level: '",
                        s,
                        "'. Use: off, minimal, low, medium, high, xhigh, or budget:<tokens>",
                    ),
                ),
            )
        },
    }
}


/// Level names are read without regard to ASCII case: two spellings that
/// differ only in case name the same level, and a budget reads the same.
pub proof fn law_thinking_level_ignores_ascii_case(a: Seq<char>, b: Seq<char>)
    requires
        ascii_lower(a) == ascii_lower(b),
        spec_parse_thinking_level(a) is Ok,
    ensures
        spec_parse_thinking_level(b) == spec_parse_thinking_level(a),
{
}

/// The name of a named level (`None` for a token budget).
pub open spec fn level_name(l: ThinkingLevel) -> Option<Seq<char>> {
    match l {
        ThinkingLevel::Off => Some("off"@),
        ThinkingLevel::Minimal => Some("minimal"@),
        ThinkingLevel::Low => Some("low"@),
        ThinkingLevel::Medium => Some("medium"@),
        ThinkingLevel::High => Some("high"@),
        ThinkingLevel::XHigh => Some("xhigh"@),
        ThinkingLevel::Budget(_) => None,
    }
}

proof fn lemma_level_names_distinct()
    ensures
        forall|a: ThinkingLevel, b: ThinkingLevel|
            #![trigger level_name(a), level_name(b)]
            level_name(a) is Some && level_name(a) == level_name(b) ==> a == b,
        forall|a: ThinkingLevel| #![trigger level_name(a)] level_name(a) != Some("none"@),
{
    reveal_strlit("off");
    reveal_strlit("minimal");
    reveal_strlit("low");
    reveal_strlit("medium");
    reveal_strlit("high");
    reveal_strlit("xhigh");
    reveal_strlit("none");
    assert("off"@.len() == 3 && "low"@.len() == 3 && "high"@.len() == 4 && "none"@.len() == 4);
    assert("xhigh"@.len() == 5 && "medium"@.len() == 6 && "minimal"@.len() == 7);
    assert("off"@[0] != "low"@[0]);
    assert("high"@[0] != "none"@[0]);
    assert forall|a: ThinkingLevel, b: ThinkingLevel|
        #![trigger level_name(a), level_name(b)]
        level_name(a) is Some && level_name(a) == level_name(b) implies a == b by {
        let na = level_name(a)->0;
        let nb = level_name(b)->0;
        assert(na.len() == nb.len());
        if na.len() == 3 {
            assert(na[0] == nb[0]);
        }
    }
    assert forall|a: ThinkingLevel| #![trigger level_name(a)] level_name(a) != Some("none"@) by {
        if level_name(a) == Some("none"@) {
            assert(level_name(a)->0[0] == "none"@[0]);
        }
    }
}

/// Each level name, in any ASCII case, is read as the level of that name,
/// and a named level is only ever read from its own name: by the builder and
/// harness setters, and by a turn-preparation hook (which also reads `none`
/// as `off`).
pub proof fn law_level_names_map_to_their_levels(s: Seq<char>, l: ThinkingLevel)
    ensures
        level_name(l) == Some(ascii_lower(s)) ==> spec_parse_thinking_level(s) == Ok::<
            ThinkingLevel,
            ErrorView,
        >(l),
        level_name(l) == Some(ascii_lower(s)) ==> named_level(ascii_lower(s), true) == Some(l),
        spec_parse_thinking_level(s) == Ok::<ThinkingLevel, ErrorView>(l) && level_name(l) is Some
            ==> level_name(l) == Some(ascii_lower(s)),
        named_level(ascii_lower(s), true) == Some(l) ==> level_name(l) == Some(ascii_lower(s)) || (l
            == ThinkingLevel::Off && ascii_lower(s) == "none"@),
{
    lemma_level_names_distinct();
    reveal_strlit("off");
    reveal_strlit("minimal");
    reveal_strlit("low");
    reveal_strlit("medium");
    reveal_strlit("high");
    reveal_strlit("xhigh");
    reveal_strlit("none");
    assert("off"@.len() == 3 && "low"@.len() == 3 && "high"@.len() == 4 && "none"@.len() == 4);
    assert("xhigh"@.len() == 5 && "medium"@.len() == 6 && "minimal"@.len() == 7);
    assert("off"@[0] != "low"@[0]);
    assert("high"@[0] != "none"@[0]);
    let lower = ascii_lower(s);
    if level_name(l) == Some(lower) {
        match l {
            ThinkingLevel::Off => {},
            ThinkingLevel::Low => {
                assert(lower != "off"@);
            },
            ThinkingLevel::High => {
                assert(lower != "none"@);
            },
            _ => {},
        }
        assert(named_level(lower, false) == Some(l));
        assert(named_level(lower, true) == Some(l));
    }
    match named_level(lower, true) {
        Some(k) => {
            if lower != "none"@ {
                assert(level_name(k) == Some(lower));
            }
        },
        None => {},
    }
    match named_level(lower, false) {
        Some(k) => {
            assert(level_name(k) == Some(lower));
        },
        None => {
            if spec_parse_thinking_level(s) == Ok::<ThinkingLevel, ErrorView>(l) {
                assert(l is Budget);
            }
        },
    }
}

} // verus!
