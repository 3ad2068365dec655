use cudgel::kg::schema::{
    is_schema_initialized, kg_table_names, schema_check_error, schema_init_error, KG_SCHEMA,
    SCHEMA_CHECK_QUERY,
};
use cudgel::kg::KgError;

#[test]
fn test_schema_constants() {
    assert!(KG_SCHEMA.contains("kg_repositories"));
    assert!(KG_SCHEMA.contains("kg_components"));
    assert!(KG_SCHEMA.contains("kg_entities"));
    assert!(KG_SCHEMA.contains("kg_relationships"));
}

#[test]
fn schema_statements_are_guarded() {
    assert_eq!(KG_SCHEMA.matches("CREATE TABLE IF NOT EXISTS").count(), 4);
    assert!(KG_SCHEMA.contains("UNIQUE(from_entity_id, to_entity_id, relationship_type)"));
}

#[test]
fn table_names_follow_schema_order() {
    let names = kg_table_names();
    assert_eq!(
        names,
        vec!["kg_repositories", "kg_components", "kg_entities", "kg_relationships"]
    );
    for name in names {
        assert!(SCHEMA_CHECK_QUERY.contains(name));
    }
}

#[test]
fn schema_is_initialized_only_with_all_tables() {
    assert!(is_schema_initialized(4));
    assert!(!is_schema_initialized(3));
    assert!(!is_schema_initialized(0));
    assert!(!is_schema_initialized(5));
}

#[test]
fn schema_errors_carry_their_cause() {
    match schema_init_error("permission denied") {
        KgError::Schema(m) => assert_eq!(m, "Failed to initialize KG schema: permission denied"),
        _ => panic!("wrong variant"),
    }
    match schema_check_error("timeout") {
        KgError::Schema(m) => assert_eq!(m, "Failed to check schema: timeout"),
        _ => panic!("wrong variant"),
    }
}

#[test]
fn every_schema_statement_can_run_twice() {
    for statement in KG_SCHEMA.split(';') {
        let s = statement
            .lines()
            .filter(|l| !l.trim_start().starts_with("--"))
            .collect::<Vec<_>>()
            .join(" ");
        let s = s.trim();
        if s.starts_with("CREATE") {
            assert!(
                s.contains("IF NOT EXISTS") || s.starts_with("CREATE OR REPLACE"),
                "unguarded statement: {}",
                s
            );
        }
    }
}
