use oxidize::catalog::Language;
use oxidize::registry::RuntimeRegistry;
use oxidize::startup::{advance, FetchError, StartupAction, StartupPhase, MAX_FETCH_ATTEMPTS};

fn catalog() -> Vec<Language> {
    vec![
        Language::new("python".to_string(), "3.10.0".to_string(), vec!["py".to_string()]),
        Language::new("rust".to_string(), "1.68.2".to_string(), vec!["rs".to_string()]),
    ]
}

#[test]
fn budget_is_three_attempts() {
    assert_eq!(MAX_FETCH_ATTEMPTS, 3);
}

#[test]
fn startup_begins_by_fetching() {
    let phase = StartupPhase::initial();
    assert_eq!(phase, StartupPhase::Fetching { failures: 0 });
    assert_eq!(phase.action(), StartupAction::Fetch);
}

#[test]
fn first_success_makes_ready() {
    let mut registry = RuntimeRegistry::new();
    let phase = advance(StartupPhase::initial(), Ok(catalog()), &mut registry);
    assert_eq!(phase, StartupPhase::Ready);
    assert_eq!(phase.action(), StartupAction::Serve);
    assert_eq!(registry.len(), 2);
    assert_eq!(registry.resolve("py"), Some(("python".to_string(), "3.10.0".to_string())));
}

#[test]
fn two_failures_then_success_ends_populated() {
    let mut registry = RuntimeRegistry::new();
    let mut phase = StartupPhase::initial();
    phase = advance(phase, Err(FetchError::Transport), &mut registry);
    assert_eq!(phase, StartupPhase::Fetching { failures: 1 });
    assert_eq!(phase.action(), StartupAction::Fetch);
    assert!(registry.is_empty());
    phase = advance(phase, Err(FetchError::Decode), &mut registry);
    assert_eq!(phase, StartupPhase::Fetching { failures: 2 });
    assert_eq!(phase.action(), StartupAction::Fetch);
    assert!(registry.is_empty());
    phase = advance(phase, Ok(catalog()), &mut registry);
    assert_eq!(phase, StartupPhase::Ready);
    assert_eq!(phase.action(), StartupAction::Serve);
    assert_eq!(registry.len(), 2);
    assert_eq!(registry.resolve("rust"), Some(("rust".to_string(), "1.68.2".to_string())));
}

#[test]
fn three_failures_terminate_without_becoming_ready() {
    let mut registry = RuntimeRegistry::new();
    let mut phase = StartupPhase::initial();
    for _ in 0..3 {
        assert_eq!(phase.action(), StartupAction::Fetch);
        phase = advance(phase, Err(FetchError::Transport), &mut registry);
        assert!(phase != StartupPhase::Ready);
    }
    assert_eq!(phase, StartupPhase::Terminated);
    assert_eq!(phase.action(), StartupAction::Exit);
    assert!(registry.is_empty());
}

#[test]
fn success_after_the_budget_is_spent_is_ignored() {
    let mut registry = RuntimeRegistry::new();
    let mut phase = StartupPhase::initial();
    for _ in 0..3 {
        phase = advance(phase, Err(FetchError::Decode), &mut registry);
    }
    phase = advance(phase, Ok(catalog()), &mut registry);
    assert_eq!(phase, StartupPhase::Terminated);
    assert!(registry.is_empty());
}

#[test]
fn ready_startup_takes_no_further_transition() {
    let mut registry = RuntimeRegistry::new();
    let mut phase = advance(StartupPhase::initial(), Ok(catalog()), &mut registry);
    phase = advance(phase, Err(FetchError::Transport), &mut registry);
    assert_eq!(phase, StartupPhase::Ready);
    assert_eq!(registry.len(), 2);
    phase = advance(phase, Ok(Vec::new()), &mut registry);
    assert_eq!(phase, StartupPhase::Ready);
    assert_eq!(registry.len(), 2);
}

#[test]
fn success_with_an_empty_catalog_still_makes_ready() {
    let mut registry = RuntimeRegistry::new();
    let phase = advance(StartupPhase::initial(), Ok(Vec::new()), &mut registry);
    assert_eq!(phase, StartupPhase::Ready);
    assert!(registry.is_empty());
}

#[test]
fn overspent_budget_asks_to_exit() {
    let mut registry = RuntimeRegistry::new();
    let phase = StartupPhase::Fetching { failures: 3 };
    assert_eq!(phase.action(), StartupAction::Exit);
    assert_eq!(advance(phase, Ok(catalog()), &mut registry), StartupPhase::Terminated);
    assert!(registry.is_empty());
    let phase = StartupPhase::Fetching { failures: u32::MAX };
    assert_eq!(phase.action(), StartupAction::Exit);
    assert_eq!(
        advance(phase, Err(FetchError::Transport), &mut registry),
        StartupPhase::Terminated
    );
}
