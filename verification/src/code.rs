//! The decisions of the command that runs code: which language token to
//! take, what to send for execution, and what to reply for each result.
//! Sending the request and the reply is the caller's work.

use vstd::prelude::*;
use vstd::string::StringExecFns;

use crate::catalog::LanguageView;
use crate::dispatch::{
    ExecutionRequest,
    ExecutionRequestView,
    ExecutionResult,
    ExecutionResultView,
};
use crate::registry::{resolution, RuntimeRegistry};

verus! {

/// Why no execution request was made.
#[derive(Clone, Debug, PartialEq, Eq)]
pub enum Refusal {
    /// Neither the command nor the code block named a language.
    NoLanguage,
    /// The registry knows the token neither as a name nor as an alias.
    Unsupported { token: String },
}

/// Mathematical value of a [`Refusal`].
pub enum RefusalView {
    NoLanguage,
    Unsupported { token: Seq<char> },
}

impl View for Refusal {
    type V = RefusalView;

    open spec fn view(&self) -> RefusalView {
        match self {
            Refusal::NoLanguage => RefusalView::NoLanguage,
            Refusal::Unsupported { token } => RefusalView::Unsupported { token: token@ },
        }
    }
}

/// The language token to resolve: the one given with the command, or else
/// the one on the code block's fence.
pub open spec fn chosen_token(explicit: Option<Seq<char>>, fenced: Option<Seq<char>>) -> Option<
    Seq<char>,
> {
    match explicit {
        Some(token) => Some(token),
        None => fenced,
    }
}

/// What the command decides before anything is sent: the request for the
/// resolved language, or the reason why there is none.
pub open spec fn planned(
    entries: Seq<LanguageView>,
    explicit: Option<Seq<char>>,
    fenced: Option<Seq<char>>,
    source_code: Seq<char>,
) -> Result<ExecutionRequestView, RefusalView> {
    match chosen_token(explicit, fenced) {
        None => Err(RefusalView::NoLanguage),
        Some(token) => match resolution(entries, token) {
            None => Err(RefusalView::Unsupported { token }),
            Some((language, version)) => Ok(
                ExecutionRequestView { language, version, source_code },
            ),
        },
    }
}

/// The reply that tells the user why nothing was run.
pub open spec fn refusal_text(refusal: RefusalView) -> Seq<char> {
    match refusal {
        RefusalView::NoLanguage =>
            "No language provided. Please run `/help code` for command help."@,
        RefusalView::Unsupported { token } => "Language "@ + token + " not supported."@,
    }
}

/// The reply for a result. A transport failure has none: it is handed on as
/// an error.
pub open spec fn result_text(result: ExecutionResultView) -> Option<Seq<char>> {
    match result {
        ExecutionResultView::Success { stdout } => Some("```"@ + stdout + "```"@),
        ExecutionResultView::CompileError { stderr } => Some("```"@ + stderr + "```"@),
        ExecutionResultView::RuntimeError { stderr } => Some("```"@ + stderr + "```"@),
        ExecutionResultView::EmptyOutput => Some(
            "Your code executed successfully without output."@,
        ),
        ExecutionResultView::ServiceError { message } => Some("There was an error."@),
        ExecutionResultView::TransportFailure { cause } => None,
    }
}

/// Picks the language token: the one given with the command wins over the
/// one on the code block's fence.
pub fn choose_token(explicit: Option<String>, fenced: Option<String>) -> (token: Option<String>)
    ensures
        token.deep_view() == chosen_token(explicit.deep_view(), fenced.deep_view()),
{
    match explicit {
        Some(token) => Some(token),
        None => fenced,
    }
}

/// Decides what to send for execution: picks the token, resolves it against
/// the registry, and builds the request for the record that answers it.
pub fn plan(
    registry: &RuntimeRegistry,
    explicit: Option<String>,
    fenced: Option<String>,
    source_code: String,
) -> (r: Result<ExecutionRequest, Refusal>)
    ensures
        match r {
            Ok(request) => Ok(request@),
            Err(refusal) => Err(refusal@),
        } == planned(registry@, explicit.deep_view(), fenced.deep_view(), source_code@),
{
    match choose_token(explicit, fenced) {
        None => Err(Refusal::NoLanguage),
        Some(token) => match registry.resolve(token.as_str()) {
            None => Err(Refusal::Unsupported { token }),
            Some((language, version)) => Ok(ExecutionRequest::new(language, version, source_code)),
        },
    }
}

impl Refusal {
    /// The reply that tells the user why nothing was run.
    pub fn reply(&self) -> (text: String)
        ensures
            text@ == refusal_text(self@),
    {
        match self {
            Refusal::NoLanguage => String::from_str(
                "No language provided. Please run `/help code` for command help.",
            ),
            Refusal::Unsupported { token } => {
                let mut text = String::from_str("Language ");
                text.append(token.as_str());
                text.append(" not supported.");
                text
            },
        }
    }
}

/// Wraps program output in a code fence.
fn fenced_block(body: &str) -> (text: String)
    ensures
        text@ == "```"@ + body@ + "```"@,
{
    let mut text = String::from_str("```");
    text.append(body);
    text.append("```");
    text
}

/// The reply for a result; `None` for a transport failure, which the caller
/// hands on as an error instead.
pub fn reply_text(result: &ExecutionResult) -> (text: Option<String>)
    ensures
        text.deep_view() == result_text(result@),
{
    match result {
        ExecutionResult::Success { stdout } => Some(fenced_block(stdout.as_str())),
        ExecutionResult::CompileError { stderr } => Some(fenced_block(stderr.as_str())),
        ExecutionResult::RuntimeError { stderr } => Some(fenced_block(stderr.as_str())),
        ExecutionResult::EmptyOutput => Some(
            String::from_str("Your code executed successfully without output."),
        ),
        ExecutionResult::ServiceError { message } => Some(String::from_str("There was an error.")),
        ExecutionResult::TransportFailure { cause } => None,
    }
}

} // verus!
