use oxidize::catalog::Language;
use oxidize::code::{choose_token, plan, reply_text, Refusal};
use oxidize::dispatch::{ExecutionRequest, ExecutionResult};
use oxidize::registry::RuntimeRegistry;

fn registry() -> RuntimeRegistry {
    let mut registry = RuntimeRegistry::new();
    registry.replace_all(vec![
        Language::new(
            "python".to_string(),
            "3.10.0".to_string(),
            vec!["py".to_string(), "py3".to_string()],
        ),
        Language::new("rust".to_string(), "1.68.2".to_string(), vec!["rs".to_string()]),
    ]);
    registry
}

fn some(text: &str) -> Option<String> {
    Some(text.to_string())
}

#[test]
fn explicit_token_wins_over_the_fence() {
    assert_eq!(choose_token(some("rust"), some("py")), some("rust"));
    assert_eq!(choose_token(some("rust"), None), some("rust"));
    assert_eq!(choose_token(None, some("py")), some("py"));
    assert_eq!(choose_token(None, None), None);
}

#[test]
fn plan_builds_the_request_for_the_resolved_record() {
    let request = plan(&registry(), None, some("py"), "print(1)".to_string());
    assert_eq!(
        request,
        Ok(ExecutionRequest::new(
            "python".to_string(),
            "3.10.0".to_string(),
            "print(1)".to_string()
        ))
    );
    let request = plan(&registry(), some("rust"), some("py"), "fn main() {}".to_string());
    assert_eq!(
        request,
        Ok(ExecutionRequest::new(
            "rust".to_string(),
            "1.68.2".to_string(),
            "fn main() {}".to_string()
        ))
    );
}

#[test]
fn plan_refuses_without_a_language() {
    assert_eq!(plan(&registry(), None, None, "print(1)".to_string()), Err(Refusal::NoLanguage));
}

#[test]
fn plan_refuses_an_unknown_language() {
    assert_eq!(
        plan(&registry(), some("cobol"), some("py"), "x".to_string()),
        Err(Refusal::Unsupported { token: "cobol".to_string() })
    );
    assert_eq!(
        plan(&RuntimeRegistry::new(), None, some("py"), "x".to_string()),
        Err(Refusal::Unsupported { token: "py".to_string() })
    );
}

#[test]
fn refusals_have_their_replies() {
    assert_eq!(
        Refusal::NoLanguage.reply(),
        "No language provided. Please run `/help code` for command help."
    );
    assert_eq!(
        Refusal::Unsupported { token: "cobol".to_string() }.reply(),
        "Language cobol not supported."
    );
    assert_eq!(Refusal::Unsupported { token: String::new() }.reply(), "Language  not supported.");
}

#[test]
fn results_have_their_replies() {
    assert_eq!(
        reply_text(&ExecutionResult::Success { stdout: "42\n".to_string() }),
        some("```42\n```")
    );
    assert_eq!(
        reply_text(&ExecutionResult::CompileError { stderr: "syntax error".to_string() }),
        some("```syntax error```")
    );
    assert_eq!(
        reply_text(&ExecutionResult::RuntimeError { stderr: "divide by zero".to_string() }),
        some("```divide by zero```")
    );
    assert_eq!(
        reply_text(&ExecutionResult::EmptyOutput),
        some("Your code executed successfully without output.")
    );
    assert_eq!(
        reply_text(&ExecutionResult::ServiceError { message: "down".to_string() }),
        some("There was an error.")
    );
    assert_eq!(
        reply_text(&ExecutionResult::TransportFailure { cause: "timeout".to_string() }),
        None
    );
}
