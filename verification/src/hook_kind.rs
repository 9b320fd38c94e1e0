//! The kinds of hooks, how a hook of one kind is asked for where another is
//! given, and how a plugin sorts its hooks by kind.

use vstd::prelude::*;

use crate::error::{err_view, ErrorView, PyErrorKind, SdkError};
use crate::text::concat2;

verus! {

/// The kind of a hook: which point of the agent loop it runs at.
#[derive(Debug, Clone, Copy, PartialEq, Eq, Structural)]
pub enum HookKind {
    BeforeTurn,
    AfterTurn,
    BeforeRun,
    AfterProviderResponse,
    BeforeProviderRequest,
    BeforeToolCall,
    AfterToolCall,
    ShouldStop,
    BeforeCompact,
    TransformContext,
    PrepareNextTurn,
    FinalAnswerValidator,
    AfterRun,
    OnAbort,
    ProviderError,
}

/// The readable name of a hook kind.
pub open spec fn spec_kind_name(k: HookKind) -> Seq<char> {
    match k {
        HookKind::BeforeTurn => "BeforeTurn"@,
        HookKind::AfterTurn => "AfterTurn"@,
        HookKind::BeforeRun => "BeforeRun"@,
        HookKind::AfterProviderResponse => "AfterProviderResponse"@,
        HookKind::BeforeProviderRequest => "BeforeProviderRequest"@,
        HookKind::BeforeToolCall => "BeforeToolCall"@,
        HookKind::AfterToolCall => "AfterToolCall"@,
        HookKind::ShouldStop => "ShouldStop"@,
        HookKind::BeforeCompact => "BeforeCompact"@,
        HookKind::TransformContext => "TransformContext"@,
        HookKind::PrepareNextTurn => "PrepareNextTurn"@,
        HookKind::FinalAnswerValidator => "FinalAnswerValidator"@,
        HookKind::AfterRun => "AfterRun"@,
        HookKind::OnAbort => "OnAbort"@,
        HookKind::ProviderError => "ProviderError"@,
    }
}

impl HookKind {
    /// The readable name of this kind, for diagnostics.
    pub fn kind_name(&self) -> (r: &'static str)
        ensures
            r@ == spec_kind_name(*self),
    {
        match self {
            HookKind::BeforeTurn => "BeforeTurn",
            HookKind::AfterTurn => "AfterTurn",
            HookKind::BeforeRun => "BeforeRun",
            HookKind::AfterProviderResponse => "AfterProviderResponse",
            HookKind::BeforeProviderRequest => "BeforeProviderRequest",
            HookKind::BeforeToolCall => "BeforeToolCall",
            HookKind::AfterToolCall => "AfterToolCall",
            HookKind::ShouldStop => "ShouldStop",
            HookKind::BeforeCompact => "BeforeCompact",
            HookKind::TransformContext => "TransformContext",
            HookKind::PrepareNextTurn => "PrepareNextTurn",
            HookKind::FinalAnswerValidator => "FinalAnswerValidator",
            HookKind::AfterRun => "AfterRun",
            HookKind::OnAbort => "OnAbort",
            HookKind::ProviderError => "ProviderError",
        }
    }
}

/// The check that a hook handed to a builder slot is of the kind the slot
/// takes: nothing when it is, else a `TypeError` whose message is `wanted`
/// (such as `expected a ShouldStop hook`), `, got ` and the given kind's name.
pub open spec fn spec_expect_kind(given: HookKind, slot: HookKind, wanted: Seq<char>) -> Result<
    (),
    ErrorView,
> {
    if given == slot {
        Ok(())
    } else {
        Err(err_view(PyErrorKind::TypeError, wanted + ", got "@ + spec_kind_name(given)))
    }
}

/// The mathematical form of a kind check's result.
pub open spec fn check_view(r: Result<(), SdkError>) -> Result<(), ErrorView> {
    match r {
        Ok(()) => Ok(()),
        Err(e) => Err(e@),
    }
}

fn expect_kind(given: HookKind, slot: HookKind, wanted: &str) -> (r: Result<(), SdkError>)
    ensures
        check_view(r) == spec_expect_kind(given, slot, wanted@),
{
    if given == slot {
        Ok(())
    } else {
        let mut m = concat2(wanted, ", got ");
        m.append(given.kind_name());
        Err(SdkError::type_error(m))
    }
}

/// Checks that a hook given as a should-stop hook is one.
pub fn as_should_stop_hook(given: HookKind) -> (r: Result<(), SdkError>)
    ensures
        check_view(r) == spec_expect_kind(given, HookKind::ShouldStop, "expected a ShouldStop hook"@),
{
    expect_kind(given, HookKind::ShouldStop, "expected a ShouldStop hook")
}

/// Checks that a hook given as an after-turn hook is one.
pub fn as_after_turn_hook(given: HookKind) -> (r: Result<(), SdkError>)
    ensures
        check_view(r) == spec_expect_kind(given, HookKind::AfterTurn, "expected an AfterTurn hook"@),
{
    expect_kind(given, HookKind::AfterTurn, "expected an AfterTurn hook")
}

/// Checks that a hook given as a provider-error hook is one.
pub fn as_provider_error_hook(given: HookKind) -> (r: Result<(), SdkError>)
    ensures
        check_view(r) == spec_expect_kind(
            given,
            HookKind::ProviderError,
            "expected a ProviderError hook"@,
        ),
{
    expect_kind(given, HookKind::ProviderError, "expected a ProviderError hook")
}

/// The payloads of the hooks of kind `k`, in the order they were given.
pub open spec fn hooks_of_kind<T>(hooks: Seq<(HookKind, T)>, k: HookKind) -> Seq<T>
    decreases hooks.len(),
{
    if hooks.len() == 0 {
        Seq::empty()
    } else if hooks.last().0 == k {
        hooks_of_kind(hooks.drop_last(), k).push(hooks.last().1)
    } else {
        hooks_of_kind(hooks.drop_last(), k)
    }
}

/// A plugin's hooks sorted by kind, each kind keeping its hooks in the order
/// they were given.
pub struct HookGroups<T> {
    pub before_turn: Vec<T>,
    pub after_turn: Vec<T>,
    pub before_run: Vec<T>,
    pub after_provider_response: Vec<T>,
    pub before_provider_request: Vec<T>,
    pub before_tool_call: Vec<T>,
    pub after_tool_call: Vec<T>,
    pub should_stop: Vec<T>,
    pub before_compact: Vec<T>,
    pub transform_context: Vec<T>,
    pub prepare_next_turn: Vec<T>,
    pub final_answer_validator: Vec<T>,
    pub after_run: Vec<T>,
    pub on_abort: Vec<T>,
    pub provider_error: Vec<T>,
}

impl<T> HookGroups<T> {
    /// The hooks of kind `k`.
    pub open spec fn group(&self, k: HookKind) -> Seq<T> {
        match k {
            HookKind::BeforeTurn => self.before_turn@,
            HookKind::AfterTurn => self.after_turn@,
            HookKind::BeforeRun => self.before_run@,
            HookKind::AfterProviderResponse => self.after_provider_response@,
            HookKind::BeforeProviderRequest => self.before_provider_request@,
            HookKind::BeforeToolCall => self.before_tool_call@,
            HookKind::AfterToolCall => self.after_tool_call@,
            HookKind::ShouldStop => self.should_stop@,
            HookKind::BeforeCompact => self.before_compact@,
            HookKind::TransformContext => self.transform_context@,
            HookKind::PrepareNextTurn => self.prepare_next_turn@,
            HookKind::FinalAnswerValidator => self.final_answer_validator@,
            HookKind::AfterRun => self.after_run@,
            HookKind::OnAbort => self.on_abort@,
            HookKind::ProviderError => self.provider_error@,
        }
    }

    /// No hooks of any kind.
    pub fn new() -> (g: HookGroups<T>)
        ensures
            forall|k: HookKind| (#[trigger] g.group(k)) == Seq::<T>::empty(),
    {
        HookGroups {
            before_turn: Vec::new(),
            after_turn: Vec::new(),
            before_run: Vec::new(),
            after_provider_response: Vec::new(),
            before_provider_request: Vec::new(),
            before_tool_call: Vec::new(),
            after_tool_call: Vec::new(),
            should_stop: Vec::new(),
            before_compact: Vec::new(),
            transform_context: Vec::new(),
            prepare_next_turn: Vec::new(),
            final_answer_validator: Vec::new(),
            after_run: Vec::new(),
            on_abort: Vec::new(),
            provider_error: Vec::new(),
        }
    }

    /// Adds a hook of kind `k` after the others of its kind.
    pub fn add(&mut self, k: HookKind, hook: T)
        ensures
            forall|j: HookKind| (#[trigger] final(self).group(j)) == if j == k {
                old(self).group(j).push(hook)
            } else {
                old(self).group(j)
            },
    {
        match k {
            HookKind::BeforeTurn => self.before_turn.push(hook),
            HookKind::AfterTurn => self.after_turn.push(hook),
            HookKind::BeforeRun => self.before_run.push(hook),
            HookKind::AfterProviderResponse => self.after_provider_response.push(hook),
            HookKind::BeforeProviderRequest => self.before_provider_request.push(hook),
            HookKind::BeforeToolCall => self.before_tool_call.push(hook),
            HookKind::AfterToolCall => self.after_tool_call.push(hook),
            HookKind::ShouldStop => self.should_stop.push(hook),
            HookKind::BeforeCompact => self.before_compact.push(hook),
            HookKind::TransformContext => self.transform_context.push(hook),
            HookKind::PrepareNextTurn => self.prepare_next_turn.push(hook),
            HookKind::FinalAnswerValidator => self.final_answer_validator.push(hook),
            HookKind::AfterRun => self.after_run.push(hook),
            HookKind::OnAbort => self.on_abort.push(hook),
            HookKind::ProviderError => self.provider_error.push(hook),
        }
    }
}

/// Sorts hooks by kind: each kind gets its hooks in the order given.
pub fn group_hooks<T>(hooks: Vec<(HookKind, T)>) -> (g: HookGroups<T>)
    ensures
        forall|k: HookKind| (#[trigger] g.group(k)) == hooks_of_kind(hooks@, k),
{
    let ghost orig = hooks@;
    let mut rest = hooks;
    let mut g: HookGroups<T> = HookGroups::new();
    let mut i: usize = 0;
    let total: usize = rest.len();
    assert(rest@ =~= orig.skip(0));
    assert forall|k: HookKind| (#[trigger] g.group(k)) == hooks_of_kind(orig.take(0), k) by {
        assert(orig.take(0) =~= Seq::<(HookKind, T)>::empty());
    }
    while rest.len() > 0
        invariant
            i + rest@.len() == orig.len(),
            orig.len() == total,
            rest@ == orig.skip(i as int),
            forall|k: HookKind| (#[trigger] g.group(k)) == hooks_of_kind(orig.take(i as int), k),
        decreases rest.len(),
    {
        let (k, h) = rest.remove(0);
        assert(orig[i as int] == (k, h));
        g.add(k, h);
        assert(orig.take(i + 1).drop_last() =~= orig.take(i as int));
        assert forall|j: HookKind| (#[trigger] g.group(j)) == hooks_of_kind(orig.take(i + 1), j) by {
            assert(orig.take(i + 1).last() == orig[i as int]);
        }
        i += 1;
        assert(rest@ =~= orig.skip(i as int));
    }
    assert(orig.take(i as int) =~= orig);
    g
}


/// How many hooks the kinds hold together.
pub open spec fn grouped_count<T>(hooks: Seq<(HookKind, T)>) -> nat {
    hooks_of_kind(hooks, HookKind::BeforeTurn).len() + hooks_of_kind(hooks, HookKind::AfterTurn).len()
        + hooks_of_kind(hooks, HookKind::BeforeRun).len() + hooks_of_kind(
        hooks,
        HookKind::AfterProviderResponse,
    ).len() + hooks_of_kind(hooks, HookKind::BeforeProviderRequest).len() + hooks_of_kind(
        hooks,
        HookKind::BeforeToolCall,
    ).len() + hooks_of_kind(hooks, HookKind::AfterToolCall).len() + hooks_of_kind(
        hooks,
        HookKind::ShouldStop,
    ).len() + hooks_of_kind(hooks, HookKind::BeforeCompact).len() + hooks_of_kind(
        hooks,
        HookKind::TransformContext,
    ).len() + hooks_of_kind(hooks, HookKind::PrepareNextTurn).len() + hooks_of_kind(
        hooks,
        HookKind::FinalAnswerValidator,
    ).len() + hooks_of_kind(hooks, HookKind::AfterRun).len() + hooks_of_kind(
        hooks,
        HookKind::OnAbort,
    ).len() + hooks_of_kind(hooks, HookKind::ProviderError).len()
}

/// Sorting hooks by kind loses none and adds none: the kinds together hold
/// exactly as many hooks as were given.
pub proof fn law_grouping_keeps_every_hook<T>(hooks: Seq<(HookKind, T)>)
    ensures
        grouped_count(hooks) == hooks.len(),
    decreases hooks.len(),
{
    if hooks.len() > 0 {
        law_grouping_keeps_every_hook(hooks.drop_last());
    }
}

} // verus!
