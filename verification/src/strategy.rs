//! Settings of the built-in strategy hooks read from Python values.

use vstd::prelude::*;

use crate::error::{err_view, ErrorView, PyErrorKind, SdkError};
use crate::text::string_from;
use crate::value::{extract_i64, extract_str, spec_extract_i64, spec_extract_str, PyValue};

verus! {

/// What a config asks of the observation-shielding hook; `None` keeps the
/// hook's default.
#[derive(Debug, Clone, PartialEq, Eq)]
pub struct ShieldingSettings {
    /// How many recent turns keep their tool observations.
    pub retained_turns: Option<usize>,
    /// The text that stands in for a shielded observation.
    pub placeholder: Option<String>,
}

/// The message of the error for a negative number of retained turns.
pub open spec fn negative_turns_message() -> Seq<char> {
    "retained_turns must be >= 0"@
}

/// The settings the values a config gives for `retained_turns` and
/// `placeholder` ask for (`None` when it gives none): a non-negative integer
/// of turns, checked first, then a `str`.
pub open spec fn spec_shielding_settings(retained_turns: PyValue, placeholder: PyValue) -> Result<
    (Option<usize>, Option<Seq<char>>),
    ErrorView,
> {
    let turns = match retained_turns {
        PyValue::NoneValue => Ok(None),
        v => match spec_extract_i64(v) {
            Err(e) => Err(e),
            Ok(n) => if n < 0 {
                Err(err_view(PyErrorKind::ValueError, negative_turns_message()))
            } else {
                Ok(Some(n as usize))
            },
        },
    };
    match turns {
        Err(e) => Err(e),
        Ok(t) => match placeholder {
            PyValue::NoneValue => Ok((t, None)),
            p => match spec_extract_str(p) {
                Err(e) => Err(e),
                Ok(s) => Ok((t, Some(s))),
            },
        },
    }
}

/// The mathematical form of a settings-or-error result.
pub open spec fn shielding_view(r: Result<ShieldingSettings, SdkError>) -> Result<
    (Option<usize>, Option<Seq<char>>),
    ErrorView,
> {
    match r {
        Ok(s) => Ok(
            (
                s.retained_turns,
                match s.placeholder {
                    Some(p) => Some(p@),
                    None => None,
                },
            ),
        ),
        Err(e) => Err(e@),
    }
}

/// Reads the observation-shielding settings from the values a config gives
/// for `retained_turns` and `placeholder`.
pub fn shielding_settings(retained_turns: &PyValue, placeholder: &PyValue) -> (r: Result<
    ShieldingSettings,
    SdkError,
>)
    ensures
        shielding_view(r) == spec_shielding_settings(*retained_turns, *placeholder),
{
    let turns = match retained_turns {
        PyValue::NoneValue => None,
        v => match extract_i64(v) {
            Err(e) => return Err(e),
            Ok(n) => {
                if n < 0 {
                    return Err(SdkError::value_error(string_from("retained_turns must be >= 0")));
                }
                Some(#[verifier::truncate] (n as usize))
            },
        },
    };
    let text = match placeholder {
        PyValue::NoneValue => None,
        p => match extract_str(p) {
            Err(e) => return Err(e),
            Ok(s) => Some(s),
        },
    };
    Ok(ShieldingSettings { retained_turns: turns, placeholder: text })
}

} // verus!
