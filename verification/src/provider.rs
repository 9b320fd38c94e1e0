//! Settings of the built-in LLM providers, read from what Python passes to
//! their factories.

use vstd::prelude::*;

use crate::content::opt_view;
use crate::error::{err_view, ErrorView, PyErrorKind, SdkError};
use crate::text::{
    ascii_lower, chars_eq_str, chars_of, concat3, lower_chars, string_of_chars, string_from,
};

verus! {

/// How an OpenAI-compatible endpoint is told to think.
#[derive(Debug, Clone, Copy, PartialEq, Eq)]
pub enum ThinkingScheme {
    /// No thinking parameter is sent.
    NoScheme,
    /// The `reasoning_effort` parameter.
    ReasoningEffort,
    /// A thinking on/off toggle.
    ThinkingToggle,
}

/// An optional argument where an empty string counts as not given.
pub open spec fn given(o: Option<String>) -> Option<Seq<char>> {
    match o {
        Some(s) => if s@.len() > 0 {
            Some(s@)
        } else {
            None
        },
        None => None,
    }
}

/// `s` without its trailing `/` characters.
pub open spec fn trim_trailing_slashes(s: Seq<char>) -> Seq<char>
    decreases s.len(),
{
    if s.len() > 0 && s.last() == '/' {
        trim_trailing_slashes(s.drop_last())
    } else {
        s
    }
}

/// `s` without one trailing `/v1`, when it ends so.
pub open spec fn strip_v1(s: Seq<char>) -> Seq<char> {
    if s.len() >= 3 && s.subrange(s.len() - 3, s.len() as int) == "/v1"@ {
        s.subrange(0, s.len() - 3)
    } else {
        s
    }
}

/// The base URL an OpenAI-compatible provider is given: when no chat path is
/// set, trailing slashes and then one `/v1` are removed (the default chat path
/// already starts with `/v1`); with a chat path the URL is kept as given.
pub open spec fn effective_base_url(url: Seq<char>, chat_path_given: bool) -> Seq<char> {
    if chat_path_given {
        url
    } else {
        strip_v1(trim_trailing_slashes(url))
    }
}

/// The scheme a `thinking_scheme` argument names, in any ASCII case, or the
/// `ValueError` for an unknown one.
pub open spec fn spec_thinking_scheme(s: Seq<char>) -> Result<ThinkingScheme, ErrorView> {
    let lower = ascii_lower(s);
    if lower == "none"@ {
        Ok(ThinkingScheme::NoScheme)
    } else if lower == "reasoning_effort"@ {
        Ok(ThinkingScheme::ReasoningEffort)
    } else if lower == "thinking_toggle"@ {
        Ok(ThinkingScheme::ThinkingToggle)
    } else {
        Err(
            err_view(
                PyErrorKind::ValueError,
                "unknown thinking_scheme '"@ + lower
                    + "': expected 'none', 'reasoning_effort', or 'thinking_toggle'"@,
            ),
        )
    }
}

/// The settings an OpenAI-compatible provider is built with.
#[derive(Debug, Clone, PartialEq, Eq)]
pub struct OpenAiSettings {
    pub base_url: Option<String>,
    pub chat_path: Option<String>,
    pub thinking_scheme: Option<ThinkingScheme>,
    pub parse_reasoning_content: bool,
    pub tolerant_keepalive: bool,
    /// Whether documents are sent at all.
    pub documents: bool,
    /// Whether documents are sent inline.
    pub documents_inline: bool,
}

/// What the OpenAI provider factory builds from its arguments: empty strings
/// count as not given; the base URL is normalized as
/// [`effective_base_url`] says, keyed on whether a chat path was passed at all
/// (an empty one included); documents are on when either flag is; an unknown
/// thinking scheme is a `ValueError`.
pub open spec fn openai_settings_ok(
    r: OpenAiSettings,
    base_url: Option<String>,
    chat_path: Option<String>,
    scheme: Option<ThinkingScheme>,
    parse_reasoning_content: bool,
    tolerant_keepalive: bool,
    documents: bool,
    documents_inline: bool,
) -> bool {
    &&& opt_view(r.base_url) == match given(base_url) {
        Some(u) => Some(effective_base_url(u, chat_path is Some)),
        None => None,
    }
    &&& opt_view(r.chat_path) == given(chat_path)
    &&& r.thinking_scheme == scheme
    &&& r.parse_reasoning_content == parse_reasoning_content
    &&& r.tolerant_keepalive == tolerant_keepalive
    &&& r.documents == (documents || documents_inline)
    &&& r.documents_inline == documents_inline
}

/// An optional argument with an empty string read as not given.
fn non_empty(o: Option<String>) -> (r: Option<String>)
    ensures
        opt_view(r) == given(o),
{
    match o {
        Some(s) => if s.as_str().unicode_len() > 0 {
            Some(s)
        } else {
            None
        },
        None => None,
    }
}

/// Normalizes a base URL as [`effective_base_url`] says.
pub fn normalize_base_url(url: &str, chat_path_given: bool) -> (r: String)
    ensures
        r@ == effective_base_url(url@, chat_path_given),
{
    if chat_path_given {
        return string_from(url);
    }
    let chars = chars_of(url);
    let mut end: usize = chars.len();
    assert(trim_trailing_slashes(chars@) == trim_trailing_slashes(chars@.take(end as int))) by {
        assert(chars@.take(end as int) =~= chars@);
    }
    while end > 0 && chars[end - 1] == '/'
        invariant
            end <= chars.len(),
            trim_trailing_slashes(chars@) == trim_trailing_slashes(chars@.take(end as int)),
        decreases end,
    {
        assert(chars@.take(end - 1) =~= chars@.take(end as int).drop_last());
        end -= 1;
    }
    assert(trim_trailing_slashes(chars@.take(end as int)) == chars@.take(end as int));
    let mut keep = end;
    if end >= 3 && chars[end - 3] == '/' && chars[end - 2] == 'v' && chars[end - 1] == '1' {
        keep = end - 3;
        proof {
            reveal_strlit("/v1");
            let t = chars@.take(end as int);
            assert(t.subrange(t.len() - 3, t.len() as int) =~= "/v1"@);
            assert(t.subrange(0, t.len() - 3) =~= chars@.take(keep as int));
        }
    } else {
        proof {
            reveal_strlit("/v1");
            let t = chars@.take(end as int);
            if t.len() >= 3 {
                assert(t.subrange(t.len() - 3, t.len() as int)[0] == t[t.len() - 3]);
                assert(t.subrange(t.len() - 3, t.len() as int)[1] == t[t.len() - 2]);
                assert(t.subrange(t.len() - 3, t.len() as int)[2] == t[t.len() - 1]);
            }
            assert(strip_v1(t) == t);
            assert(t =~= chars@.take(keep as int));
        }
    }
    let mut kept: Vec<char> = Vec::new();
    let mut i: usize = 0;
    while i < keep
        invariant
            keep <= chars.len(),
            i <= keep,
            kept@ == chars@.take(i as int),
        decreases keep - i,
    {
        kept.push(chars[i]);
        i += 1;
        assert(kept@ =~= chars@.take(i as int));
    }
    assert(chars@ == url@);
    string_of_chars(&kept)
}

/// The scheme a `thinking_scheme` argument names.
pub fn parse_thinking_scheme(s: &str) -> (r: Result<ThinkingScheme, SdkError>)
    ensures
        match r {
            Ok(t) => spec_thinking_scheme(s@) == Ok::<ThinkingScheme, ErrorView>(t),
            Err(e) => spec_thinking_scheme(s@) == Err::<ThinkingScheme, ErrorView>(e@),
        },
{
    let lower = lower_chars(s);
    if chars_eq_str(&lower, "none") {
        Ok(ThinkingScheme::NoScheme)
    } else if chars_eq_str(&lower, "reasoning_effort") {
        Ok(ThinkingScheme::ReasoningEffort)
    } else if chars_eq_str(&lower, "thinking_toggle") {
        Ok(ThinkingScheme::ThinkingToggle)
    } else {
        let l = string_of_chars(&lower);
        Err(
            SdkError::value_error(
                concat3(
                    "unknown thinking_scheme '",
                    l.as_str(),
                    "': expected 'none', 'reasoning_effort', or 'thinking_toggle'",
                ),
            ),
        )
    }
}

/// Reads the arguments of the OpenAI provider factory into the settings the
/// provider is built with.
pub fn openai_settings(
    base_url: Option<String>,
    chat_path: Option<String>,
    thinking_scheme: Option<String>,
    parse_reasoning_content: bool,
    tolerant_keepalive: bool,
    documents: bool,
    documents_inline: bool,
) -> (r: Result<OpenAiSettings, SdkError>)
    ensures
        match given(thinking_scheme) {
            Some(s) => match spec_thinking_scheme(s) {
                Ok(t) => r matches Ok(st) && openai_settings_ok(
                    st,
                    base_url,
                    chat_path,
                    Some(t),
                    parse_reasoning_content,
                    tolerant_keepalive,
                    documents,
                    documents_inline,
                ),
                Err(err) => r matches Err(e) && e@ == err,
            },
            None => r matches Ok(st) && openai_settings_ok(
                st,
                base_url,
                chat_path,
                None,
                parse_reasoning_content,
                tolerant_keepalive,
                documents,
                documents_inline,
            ),
        },
{
    let chat_path_passed = chat_path.is_some();
    let base = match non_empty(base_url) {
        Some(u) => Some(normalize_base_url(u.as_str(), chat_path_passed)),
        None => None,
    };
    let scheme = match non_empty(thinking_scheme) {
        Some(s) => match parse_thinking_scheme(s.as_str()) {
            Ok(t) => Some(t),
            Err(e) => return Err(e),
        },
        None => None,
    };
    Ok(
        OpenAiSettings {
            base_url: base,
            chat_path: non_empty(chat_path),
            thinking_scheme: scheme,
            parse_reasoning_content,
            tolerant_keepalive,
            documents: documents || documents_inline,
            documents_inline,
        },
    )
}

/// The settings an Anthropic provider is built with: the base URL and the
/// messages path, each when given and not empty.
#[derive(Debug, Clone, PartialEq, Eq)]
pub struct AnthropicSettings {
    pub base_url: Option<String>,
    pub messages_path: Option<String>,
}

/// Reads the arguments of the Anthropic provider factory.
pub fn anthropic_settings(base_url: Option<String>, messages_path: Option<String>) -> (r:
    AnthropicSettings)
    ensures
        opt_view(r.base_url) == given(base_url),
        opt_view(r.messages_path) == given(messages_path),
{
    AnthropicSettings { base_url: non_empty(base_url), messages_path: non_empty(messages_path) }
}

} // verus!
