use cudgel::kg::query::{QueryIntent, QueryParser, RelationKind};
use cudgel::kg::KgError;

fn name_of(intent: &QueryIntent) -> String {
    intent.entity_name().clone()
}

#[test]
fn test_query_parser_dependencies() {
    let parser = QueryParser::new();

    let intent = parser.parse("what does Parser depend on").unwrap();
    assert_eq!(intent, QueryIntent::Dependencies { entity_name: "Parser".to_string() });

    let intent = parser.parse("dependencies of Config").unwrap();
    assert_eq!(intent, QueryIntent::Dependencies { entity_name: "Config".to_string() });

    let intent = parser.parse("show dependencies for Database").unwrap();
    assert_eq!(intent, QueryIntent::Dependencies { entity_name: "Database".to_string() });
}

#[test]
fn test_query_parser_dependents() {
    let parser = QueryParser::new();

    let intent = parser.parse("what depends on Parser").unwrap();
    assert_eq!(intent, QueryIntent::Dependents { entity_name: "Parser".to_string() });

    let intent = parser.parse("dependents of Config").unwrap();
    assert_eq!(intent, QueryIntent::Dependents { entity_name: "Config".to_string() });
}

#[test]
fn test_query_parser_uses() {
    let parser = QueryParser::new();

    let intent = parser.parse("what does Parser use").unwrap();
    assert_eq!(intent, QueryIntent::Uses { entity_name: "Parser".to_string() });

    let intent = parser.parse("what uses Config").unwrap();
    assert_eq!(intent, QueryIntent::UsedBy { entity_name: "Config".to_string() });
}

#[test]
fn test_query_parser_calls() {
    let parser = QueryParser::new();

    let intent = parser.parse("what does main call").unwrap();
    assert_eq!(intent, QueryIntent::Calls { entity_name: "main".to_string() });

    let intent = parser.parse("what calls parse_file").unwrap();
    assert_eq!(intent, QueryIntent::CalledBy { entity_name: "parse_file".to_string() });
}

#[test]
fn test_query_parser_implements() {
    let parser = QueryParser::new();

    let intent = parser.parse("what does Database implement").unwrap();
    assert_eq!(intent, QueryIntent::Implements { entity_name: "Database".to_string() });

    let intent = parser.parse("what implements Serializable").unwrap();
    assert_eq!(intent, QueryIntent::ImplementedBy { entity_name: "Serializable".to_string() });
}

#[test]
fn test_query_parser_all_relationships() {
    let parser = QueryParser::new();

    let intent = parser.parse("what does Parser interact with").unwrap();
    assert_eq!(intent, QueryIntent::AllRelationships { entity_name: "Parser".to_string() });

    let intent = parser.parse("relationships of Config").unwrap();
    assert_eq!(intent, QueryIntent::AllRelationships { entity_name: "Config".to_string() });

    let intent = parser.parse("show all relationships for Database").unwrap();
    assert_eq!(intent, QueryIntent::AllRelationships { entity_name: "Database".to_string() });
}

#[test]
fn test_query_parser_invalid() {
    let parser = QueryParser::new();

    let result = parser.parse("random nonsense query");
    assert!(result.is_err());
    assert!(matches!(result, Err(KgError::Query(_))));
}

#[test]
fn test_query_parser_empty() {
    let parser = QueryParser::new();

    let result = parser.parse("");
    assert!(result.is_err());
    assert!(matches!(result, Err(KgError::Query(_))));
}

#[test]
fn test_query_parser_relationship_intent() {
    let parser = QueryParser::new();
    let cases = [
        ("what does Parser depend on", "Parser"),
        ("dependencies of Config", "Config"),
        ("what depends on Database", "Database"),
        ("what does Indexer use", "Indexer"),
        ("what uses Parser", "Parser"),
        ("what does main call", "main"),
        ("what calls parse_file", "parse_file"),
        ("what does HttpClient implement", "HttpClient"),
        ("what implements Serializable", "Serializable"),
        ("what does Parser interact with", "Parser"),
        ("relationships of Config", "Config"),
    ];
    for (query, name) in cases {
        let intent = parser.parse(query).unwrap();
        assert_eq!(name_of(&intent), name);
    }
    for query in ["random nonsense", "hello world"] {
        assert!(parser.parse(query).is_err());
    }
}

#[test]
fn query_errors_carry_their_messages() {
    let parser = QueryParser::new();
    match parser.parse("   ") {
        Err(KgError::Query(m)) => assert_eq!(m, "Query cannot be empty"),
        _ => panic!("expected a query error"),
    }
    match parser.parse("hello") {
        Err(KgError::Query(m)) => assert!(m.starts_with("Could not parse query: 'hello'\n\nSupported patterns:")),
        _ => panic!("expected a query error"),
    }
}

#[test]
fn query_patterns_ignore_case_and_take_the_first_match() {
    let parser = QueryParser::new();
    assert_eq!(
        parser.parse("WHAT DOES Lexer DEPEND ON").unwrap(),
        QueryIntent::Dependencies { entity_name: "Lexer".to_string() }
    );
    assert_eq!(
        parser.parse("Lexer depends on").unwrap(),
        QueryIntent::Dependencies { entity_name: "Lexer".to_string() }
    );
}

#[test]
fn an_intent_names_its_relation_kind() {
    let parser = QueryParser::new();
    assert_eq!(parser.parse("what calls parse_file").unwrap().relation_kind(), RelationKind::CalledBy);
    assert_eq!(parser.parse("what does Parser depend on").unwrap().relation_kind(), RelationKind::Dependencies);
}
