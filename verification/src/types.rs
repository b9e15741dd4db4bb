//! The switcher's state and the errors that requests are answered with.

use vstd::prelude::*;

verus! {

/// The view of an optional name.
pub open spec fn opt_name(name: Option<String>) -> Option<Seq<char>> {
    match name {
        Some(n) => Some(n@),
        None => None,
    }
}

/// A copy of an optional name.
pub(crate) fn copy_opt_name(name: &Option<String>) -> (copy: Option<String>)
    ensures
        opt_name(copy) == opt_name(*name),
{
    match name {
        Some(n) => Some(n.clone()),
        None => None,
    }
}

/// Which model serves requests.
#[derive(Debug, Clone, PartialEq, Eq)]
pub enum SwitcherState {
    /// No model is active.
    Idle,
    /// One model is active.
    Active { model: String },
    /// A switch is under way.
    Switching { from: Option<String>, to: String },
}

/// The view of a [`SwitcherState`].
pub enum StateView {
    Idle,
    Active { model: Seq<char> },
    Switching { from: Option<Seq<char>>, to: Seq<char> },
}

impl View for SwitcherState {
    type V = StateView;

    open spec fn view(&self) -> StateView {
        match *self {
            SwitcherState::Idle => StateView::Idle,
            SwitcherState::Active { model } => StateView::Active { model: model@ },
            SwitcherState::Switching { from, to } => StateView::Switching {
                from: opt_name(from),
                to: to@,
            },
        }
    }
}

impl StateView {
    /// The active model, if there is one.
    pub open spec fn active(self) -> Option<Seq<char>> {
        match self {
            StateView::Active { model } => Some(model),
            _ => None,
        }
    }
}

impl SwitcherState {
    /// A copy of the state.
    pub fn copy(&self) -> (state: SwitcherState)
        ensures
            state@ == self@,
    {
        match self {
            SwitcherState::Idle => SwitcherState::Idle,
            SwitcherState::Active { model } => SwitcherState::Active { model: model.clone() },
            SwitcherState::Switching { from, to } => SwitcherState::Switching {
                from: copy_opt_name(from),
                to: to.clone(),
            },
        }
    }
}

/// Why a request or a switch was not served.
#[derive(Debug, Clone, PartialEq, Eq)]
pub enum SwitchError {
    /// No model of that name is registered.
    ModelNotFound(String),
    /// The model is not active after a switch to it.
    NotReady(String),
    /// The model did not become active in time.
    Timeout,
    /// A lifecycle hook of the model failed.
    HookFailed { model: String, detail: String },
    /// Anything else.
    Internal(String),
}

/// The view of a [`SwitchError`].
pub enum ErrorView {
    ModelNotFound(Seq<char>),
    NotReady(Seq<char>),
    Timeout,
    HookFailed { model: Seq<char>, detail: Seq<char> },
    Internal(Seq<char>),
}

impl View for SwitchError {
    type V = ErrorView;

    open spec fn view(&self) -> ErrorView {
        match *self {
            SwitchError::ModelNotFound(model) => ErrorView::ModelNotFound(model@),
            SwitchError::NotReady(model) => ErrorView::NotReady(model@),
            SwitchError::Timeout => ErrorView::Timeout,
            SwitchError::HookFailed { model, detail } => ErrorView::HookFailed {
                model: model@,
                detail: detail@,
            },
            SwitchError::Internal(detail) => ErrorView::Internal(detail@),
        }
    }
}

impl ErrorView {
    /// The text of the error.
    pub open spec fn message(self) -> Seq<char> {
        match self {
            ErrorView::ModelNotFound(model) => "model not found: "@ + model,
            ErrorView::NotReady(model) => "model not ready: "@ + model,
            ErrorView::Timeout => "request timed out"@,
            ErrorView::HookFailed { model, detail } => "hook failed for model "@ + model + ": "@
                + detail,
            ErrorView::Internal(detail) => "internal error: "@ + detail,
        }
    }
}

impl SwitchError {
    /// The text of the error.
    pub fn message(&self) -> (text: String)
        ensures
            text@ == self@.message(),
    {
        match self {
            SwitchError::ModelNotFound(model) => {
                "model not found: ".to_owned().concat(model.as_str())
            },
            SwitchError::NotReady(model) => "model not ready: ".to_owned().concat(model.as_str()),
            SwitchError::Timeout => "request timed out".to_owned(),
            SwitchError::HookFailed { model, detail } => {
                "hook failed for model ".to_owned().concat(model.as_str()).concat(": ").concat(
                    detail.as_str(),
                )
            },
            SwitchError::Internal(detail) => "internal error: ".to_owned().concat(detail.as_str()),
        }
    }
}

/// The view of an optional name holds the name, and there is none without a name.
pub proof fn law_optional_name_kept(name: String)
    ensures
        opt_name(Some(name)) == Some(name@),
        opt_name(None) is None,
{
}

/// Nothing of a state is lost in its view, and only an active model counts as active: the two
/// models of a switch under way do not.
pub proof fn law_state_kept(model: String, from: Option<String>)
    ensures
        (SwitcherState::Active { model })@ == (StateView::Active { model: model@ }),
        (SwitcherState::Switching { from, to: model })@ == (StateView::Switching {
            from: match from {
                Some(f) => Some(f@),
                None => None,
            },
            to: model@,
        }),
        SwitcherState::Idle@ is Idle,
        (StateView::Active { model: model@ }).active() == Some(model@),
        (SwitcherState::Switching { from, to: model })@.active() is None,
        SwitcherState::Idle@.active() is None,
{
}

/// Nothing of an error is lost in its view.
pub proof fn law_error_kept(model: String, detail: String)
    ensures
        SwitchError::ModelNotFound(model)@ == ErrorView::ModelNotFound(model@),
        SwitchError::NotReady(model)@ == ErrorView::NotReady(model@),
        SwitchError::Timeout@ is Timeout,
        (SwitchError::HookFailed { model, detail })@ == (ErrorView::HookFailed {
            model: model@,
            detail: detail@,
        }),
        SwitchError::Internal(detail)@ == ErrorView::Internal(detail@),
{
}

/// What an error says: its kind, and after that the model and the detail that it carries.
pub proof fn law_error_says_what_failed(model: Seq<char>, detail: Seq<char>)
    ensures
        ErrorView::ModelNotFound(model).message() == "model not found: "@ + model,
        ErrorView::NotReady(model).message() == "model not ready: "@ + model,
        ErrorView::Timeout.message() == "request timed out"@,
        (ErrorView::HookFailed { model, detail }).message() == "hook failed for model "@ + model
            + ": "@ + detail,
        ErrorView::Internal(detail).message() == "internal error: "@ + detail,
{
}

/// Errors about different models say different things.
pub proof fn law_error_names_its_model(a: Seq<char>, b: Seq<char>, detail: Seq<char>)
    requires
        a != b,
    ensures
        ErrorView::ModelNotFound(a).message() != ErrorView::ModelNotFound(b).message(),
        ErrorView::NotReady(a).message() != ErrorView::NotReady(b).message(),
        ErrorView::Internal(a).message() != ErrorView::Internal(b).message(),
        (ErrorView::HookFailed { model: detail, detail: a }).message() != (ErrorView::HookFailed {
            model: detail,
            detail: b,
        }).message(),
{
    lemma_prefix_cancels("model not found: "@, a, b);
    lemma_prefix_cancels("model not ready: "@, a, b);
    lemma_prefix_cancels("internal error: "@, a, b);
    lemma_prefix_cancels("hook failed for model "@ + detail + ": "@, a, b);
}

/// Two different texts differ behind the same beginning too.
proof fn lemma_prefix_cancels(prefix: Seq<char>, a: Seq<char>, b: Seq<char>)
    requires
        a != b,
    ensures
        prefix + a != prefix + b,
{
    assert((prefix + a).skip(prefix.len() as int) =~= a);
    assert((prefix + b).skip(prefix.len() as int) =~= b);
}

} // verus!
