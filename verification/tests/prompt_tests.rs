use cudgel::llm::prompts::{
    fill_template, COMPONENT_PROMPT, ENTITY_PROMPT, PATTERN_ANALYSIS_PROMPT, REPOSITORY_PROMPT,
};

#[test]
fn test_fill_template() {
    let values = vec![
        ("name".to_string(), "TestProject".to_string()),
        ("languages".to_string(), "Rust".to_string()),
        ("modules".to_string(), "core, api, cli".to_string()),
        ("file_count".to_string(), "42".to_string()),
        ("entity_count".to_string(), "150".to_string()),
        ("patterns".to_string(), "async, database".to_string()),
    ];

    let result = fill_template(REPOSITORY_PROMPT, &values);

    assert!(result.contains("TestProject"));
    assert!(result.contains("Rust"));
    assert!(result.contains("42"));
    assert!(!result.contains("{name}"));
    assert!(!result.contains("{languages}"));
}

#[test]
fn test_component_prompt_has_required_placeholders() {
    assert!(COMPONENT_PROMPT.contains("{name}"));
    assert!(COMPONENT_PROMPT.contains("{type}"));
    assert!(COMPONENT_PROMPT.contains("{dependencies}"));
}

#[test]
fn test_entity_prompt_has_required_placeholders() {
    assert!(ENTITY_PROMPT.contains("{name}"));
    assert!(ENTITY_PROMPT.contains("{type}"));
    assert!(ENTITY_PROMPT.contains("{code_snippet}"));
}

#[test]
fn test_pattern_analysis_prompt_has_required_placeholders() {
    assert!(PATTERN_ANALYSIS_PROMPT.contains("{pattern}"));
    assert!(PATTERN_ANALYSIS_PROMPT.contains("{entities}"));
}

#[test]
fn fill_template_replaces_every_occurrence_and_keeps_unknown_keys() {
    let values = vec![("type".to_string(), "function".to_string())];
    let result = fill_template("a {type} and a {type} in {file_path}", &values);
    assert_eq!(result, "a function and a function in {file_path}");
    assert_eq!(fill_template("no placeholders", &vec![]), "no placeholders");
}

#[test]
fn fill_template_applies_pairs_in_order() {
    let values = vec![
        ("a".to_string(), "{b}".to_string()),
        ("b".to_string(), "x".to_string()),
    ];
    assert_eq!(fill_template("{a}", &values), "x");
}
