use oxidize::catalog::Language;
use oxidize::registry::RuntimeRegistry;

fn entry(language: &str, version: &str, aliases: &[&str]) -> Language {
    Language::new(
        language.to_string(),
        version.to_string(),
        aliases.iter().map(|a| a.to_string()).collect(),
    )
}

fn sample() -> RuntimeRegistry {
    let mut registry = RuntimeRegistry::new();
    registry.replace_all(vec![
        entry("python", "3.10.0", &["py", "py3", "python3"]),
        entry("javascript", "16.3.0", &["node", "js", "py3"]),
        entry("rust", "1.68.2", &["rs"]),
        entry("py", "0.0.1", &["pie"]),
    ]);
    registry
}

fn pair(language: &str, version: &str) -> Option<(String, String)> {
    Some((language.to_string(), version.to_string()))
}

#[test]
fn new_registry_is_empty() {
    let registry = RuntimeRegistry::new();
    assert!(registry.is_empty());
    assert_eq!(registry.len(), 0);
    assert_eq!(registry.resolve("python"), None);
    assert_eq!(registry.resolve(""), None);
}

#[test]
fn canonical_name_resolves_to_its_own_version() {
    let registry = sample();
    assert_eq!(registry.resolve("python"), pair("python", "3.10.0"));
    assert_eq!(registry.resolve("javascript"), pair("javascript", "16.3.0"));
    assert_eq!(registry.resolve("rust"), pair("rust", "1.68.2"));
}

#[test]
fn canonical_name_wins_over_an_earlier_alias() {
    // "py" is an alias of the first record and the canonical name of the last.
    let registry = sample();
    assert_eq!(registry.resolve("py"), pair("py", "0.0.1"));
}

#[test]
fn alias_resolves_to_its_record() {
    let registry = sample();
    assert_eq!(registry.resolve("node"), pair("javascript", "16.3.0"));
    assert_eq!(registry.resolve("rs"), pair("rust", "1.68.2"));
    assert_eq!(registry.resolve("python3"), pair("python", "3.10.0"));
    assert_eq!(registry.resolve("pie"), pair("py", "0.0.1"));
}

#[test]
fn duplicate_alias_resolves_to_the_first_record_in_catalog_order() {
    let registry = sample();
    assert_eq!(registry.resolve("py3"), pair("python", "3.10.0"));
}

#[test]
fn duplicate_canonical_name_resolves_to_the_first_record() {
    let mut registry = RuntimeRegistry::new();
    registry.replace_all(vec![
        entry("python", "3.10.0", &[]),
        entry("python", "2.7.18", &[]),
    ]);
    assert_eq!(registry.resolve("python"), pair("python", "3.10.0"));
}

#[test]
fn unknown_token_is_not_found() {
    let registry = sample();
    assert_eq!(registry.resolve("cobol"), None);
    assert_eq!(registry.resolve(""), None);
    assert_eq!(registry.resolve("pyth"), None);
    assert_eq!(registry.resolve("python "), None);
}

#[test]
fn matching_is_case_sensitive() {
    let registry = sample();
    assert_eq!(registry.resolve("Python"), None);
    assert_eq!(registry.resolve("RS"), None);
    assert_eq!(registry.resolve("Node"), None);
}

#[test]
fn matching_is_exact_on_non_ascii_tokens() {
    let mut registry = RuntimeRegistry::new();
    registry.replace_all(vec![entry("brainfuck", "2.7.3", &["bf", "b\u{e9}f"])]);
    assert_eq!(registry.resolve("b\u{e9}f"), pair("brainfuck", "2.7.3"));
    assert_eq!(registry.resolve("bef"), None);
    assert_eq!(registry.resolve("b\u{e8}f"), None);
}

#[test]
fn replace_all_swaps_the_whole_set() {
    let mut registry = sample();
    assert_eq!(registry.len(), 4);
    registry.replace_all(vec![entry("go", "1.16.2", &["golang"])]);
    assert_eq!(registry.len(), 1);
    assert!(!registry.is_empty());
    // Nothing of the old set is left, neither names nor aliases.
    assert_eq!(registry.resolve("python"), None);
    assert_eq!(registry.resolve("py"), None);
    assert_eq!(registry.resolve("rs"), None);
    assert_eq!(registry.resolve("golang"), pair("go", "1.16.2"));
    assert_eq!(registry.resolve("go"), pair("go", "1.16.2"));
}

#[test]
fn replace_all_with_nothing_empties_the_registry() {
    let mut registry = sample();
    registry.replace_all(Vec::new());
    assert!(registry.is_empty());
    assert_eq!(registry.resolve("python"), None);
}

#[test]
fn entry_predicates_are_exact() {
    let python = entry("python", "3.10.0", &["py", "py3"]);
    assert!(python.is_named("python"));
    assert!(!python.is_named("py"));
    assert!(!python.is_named("pythons"));
    assert!(!python.is_named(""));
    assert!(python.has_alias("py"));
    assert!(python.has_alias("py3"));
    assert!(!python.has_alias("python"));
    assert!(!python.has_alias("p"));
    assert!(!entry("c", "10.2.0", &[]).has_alias("c"));
}
