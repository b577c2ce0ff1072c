//! Execution requests, the structured response of the execution service, and
//! the classification of a response into one renderable result.

use vstd::prelude::*;

verus! {

/// What is sent to the execution service: a resolved language, its version,
/// and the source code to run.
#[derive(Clone, Debug, PartialEq, Eq)]
pub struct ExecutionRequest {
    pub language: String,
    pub version: String,
    pub source_code: String,
}

/// Mathematical value of an [`ExecutionRequest`].
pub struct ExecutionRequestView {
    pub language: Seq<char>,
    pub version: Seq<char>,
    pub source_code: Seq<char>,
}

impl View for ExecutionRequest {
    type V = ExecutionRequestView;

    open spec fn view(&self) -> ExecutionRequestView {
        ExecutionRequestView {
            language: self.language@,
            version: self.version@,
            source_code: self.source_code@,
        }
    }
}

impl DeepView for ExecutionRequest {
    type V = ExecutionRequestView;

    open spec fn deep_view(&self) -> ExecutionRequestView {
        self@
    }
}

impl ExecutionRequest {
    /// A request for `source_code` in the given language and version. The
    /// source code is taken as it is, empty or not.
    pub fn new(language: String, version: String, source_code: String) -> (request:
        ExecutionRequest)
        ensures
            request@ == (ExecutionRequestView {
                language: language@,
                version: version@,
                source_code: source_code@,
            }),
    {
        ExecutionRequest { language, version, source_code }
    }
}

/// The two streams that one phase (compile or run) of an execution produced.
#[derive(Clone, Debug, PartialEq, Eq)]
pub struct PhaseOutput {
    pub stdout: String,
    pub stderr: String,
}

/// Mathematical value of a [`PhaseOutput`].
pub struct PhaseOutputView {
    pub stdout: Seq<char>,
    pub stderr: Seq<char>,
}

impl View for PhaseOutput {
    type V = PhaseOutputView;

    open spec fn view(&self) -> PhaseOutputView {
        PhaseOutputView { stdout: self.stdout@, stderr: self.stderr@ }
    }
}

impl DeepView for PhaseOutput {
    type V = PhaseOutputView;

    open spec fn deep_view(&self) -> PhaseOutputView {
        self@
    }
}

/// The structured response of the execution service. Every part is optional
/// on the wire.
#[derive(Clone, Debug, PartialEq, Eq)]
pub struct ExecutionResponse {
    pub run: Option<PhaseOutput>,
    pub compile: Option<PhaseOutput>,
    pub message: Option<String>,
}

/// Mathematical value of an [`ExecutionResponse`].
pub struct ExecutionResponseView {
    pub run: Option<PhaseOutputView>,
    pub compile: Option<PhaseOutputView>,
    pub message: Option<Seq<char>>,
}

impl View for ExecutionResponse {
    type V = ExecutionResponseView;

    open spec fn view(&self) -> ExecutionResponseView {
        ExecutionResponseView {
            run: self.run.deep_view(),
            compile: self.compile.deep_view(),
            message: self.message.deep_view(),
        }
    }
}

impl DeepView for ExecutionResponse {
    type V = ExecutionResponseView;

    open spec fn deep_view(&self) -> ExecutionResponseView {
        self@
    }
}

impl ExecutionResponseView {
    /// A compile phase exists and its error stream is not empty.
    pub open spec fn compile_failed(self) -> bool {
        self.compile matches Some(phase) && phase.stderr.len() > 0
    }

    /// The response can be classified: a service message or a compile error
    /// settles it at once, and anything else is read off the run phase,
    /// which then has to be there.
    pub open spec fn is_classifiable(self) -> bool {
        self.message is Some || self.compile_failed() || self.run is Some
    }
}

/// The one result of a dispatch.
#[derive(Clone, Debug, PartialEq, Eq)]
pub enum ExecutionResult {
    /// The program ran and wrote to its standard output.
    Success { stdout: String },
    /// The program did not compile.
    CompileError { stderr: String },
    /// The program ran and wrote to its error stream.
    RuntimeError { stderr: String },
    /// The program ran and wrote nothing at all.
    EmptyOutput,
    /// The service answered with an error message of its own.
    ServiceError { message: String },
    /// The service could not be reached, or its answer could not be read.
    TransportFailure { cause: String },
}

/// Mathematical value of an [`ExecutionResult`].
pub enum ExecutionResultView {
    Success { stdout: Seq<char> },
    CompileError { stderr: Seq<char> },
    RuntimeError { stderr: Seq<char> },
    EmptyOutput,
    ServiceError { message: Seq<char> },
    TransportFailure { cause: Seq<char> },
}

impl View for ExecutionResult {
    type V = ExecutionResultView;

    open spec fn view(&self) -> ExecutionResultView {
        match self {
            ExecutionResult::Success { stdout } => ExecutionResultView::Success { stdout: stdout@ },
            ExecutionResult::CompileError { stderr } => ExecutionResultView::CompileError {
                stderr: stderr@,
            },
            ExecutionResult::RuntimeError { stderr } => ExecutionResultView::RuntimeError {
                stderr: stderr@,
            },
            ExecutionResult::EmptyOutput => ExecutionResultView::EmptyOutput,
            ExecutionResult::ServiceError { message } => ExecutionResultView::ServiceError {
                message: message@,
            },
            ExecutionResult::TransportFailure { cause } => ExecutionResultView::TransportFailure {
                cause: cause@,
            },
        }
    }
}

impl DeepView for ExecutionResult {
    type V = ExecutionResultView;

    open spec fn deep_view(&self) -> ExecutionResultView {
        self@
    }
}

/// The result that a structured response stands for. In order: a service
/// message makes a service error; a non-empty compile error stream makes a
/// compile error, since a failed compile leaves any run output meaningless;
/// a non-empty run error stream makes a runtime error; an empty standard
/// output makes an empty output; anything else is a success.
pub open spec fn classification(response: ExecutionResponseView) -> ExecutionResultView {
    if let Some(message) = response.message {
        ExecutionResultView::ServiceError { message }
    } else if response.compile_failed() {
        ExecutionResultView::CompileError { stderr: response.compile->0.stderr }
    } else {
        let run = response.run->0;
        if run.stderr.len() > 0 {
            ExecutionResultView::RuntimeError { stderr: run.stderr }
        } else if run.stdout.len() == 0 {
            ExecutionResultView::EmptyOutput
        } else {
            ExecutionResultView::Success { stdout: run.stdout }
        }
    }
}

/// Mathematical value of what came back from the service.
pub open spec fn reply_view(reply: Result<ExecutionResponse, String>) -> Result<
    ExecutionResponseView,
    Seq<char>,
> {
    match reply {
        Ok(response) => Ok(response@),
        Err(cause) => Err(cause@),
    }
}

/// The result of a dispatch, given what came back from the service: the
/// classification of its response, or a transport failure with its cause.
pub open spec fn outcome(reply: Result<ExecutionResponseView, Seq<char>>) -> ExecutionResultView {
    match reply {
        Ok(response) => classification(response),
        Err(cause) => ExecutionResultView::TransportFailure { cause },
    }
}

impl ExecutionResponse {
    /// Whether the response can be classified.
    pub fn is_classifiable(&self) -> (r: bool)
        ensures
            r == self@.is_classifiable(),
    {
        if self.message.is_some() {
            return true;
        }
        if let Some(phase) = &self.compile {
            if !phase.stderr.as_str().is_empty() {
                return true;
            }
        }
        self.run.is_some()
    }
}

/// Classifies the structured response of the execution service.
pub fn classify(response: ExecutionResponse) -> (result: ExecutionResult)
    requires
        response@.is_classifiable(),
    ensures
        result@ == classification(response@),
{
    let ExecutionResponse { run, compile, message } = response;
    if let Some(message) = message {
        return ExecutionResult::ServiceError { message };
    }
    if let Some(phase) = compile {
        if !phase.stderr.as_str().is_empty() {
            return ExecutionResult::CompileError { stderr: phase.stderr };
        }
    }
    let run = run.unwrap();
    if !run.stderr.as_str().is_empty() {
        ExecutionResult::RuntimeError { stderr: run.stderr }
    } else if run.stdout.as_str().is_empty() {
        ExecutionResult::EmptyOutput
    } else {
        ExecutionResult::Success { stdout: run.stdout }
    }
}

/// Turns what came back from the execution service into the one result of
/// the dispatch: a received response is classified, and a failure to reach
/// the service, or to read its answer, becomes a transport failure that
/// carries the cause. Nothing is retried.
pub fn conclude(reply: Result<ExecutionResponse, String>) -> (result: ExecutionResult)
    requires
        reply matches Ok(response) ==> response@.is_classifiable(),
    ensures
        result@ == outcome(reply_view(reply)),
{
    match reply {
        Ok(response) => classify(response),
        Err(cause) => ExecutionResult::TransportFailure { cause },
    }
}

/// A service message decides the result whatever the other parts hold.
pub proof fn lemma_service_message_overrides(response: ExecutionResponseView, message: Seq<char>)
    requires
        response.message == Some(message),
    ensures
        classification(response) == (ExecutionResultView::ServiceError { message }),
{
}

/// A compile error is reported before anything that the run phase holds.
pub proof fn lemma_compile_error_precedes_run(response: ExecutionResponseView)
    requires
        response.message is None,
        response.compile_failed(),
    ensures
        classification(response) == (ExecutionResultView::CompileError {
            stderr: response.compile->0.stderr,
        }),
{
}

/// Every classifiable response is classified as exactly one of the five
/// results that a received response can have; a transport failure is never
/// among them.
pub proof fn lemma_classification_is_never_transport_failure(response: ExecutionResponseView)
    ensures
        !(classification(response) is TransportFailure),
{
}

} // verus!
