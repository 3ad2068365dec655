use cudgel::kg::client::{
    classify_relationships, lenient_row_to_entity, merge_relationships, row_to_entity, Direction,
    EntityRow, RelationshipRow,
};
use cudgel::kg::model::{
    CodeEntity, ComponentType, DependencyType, EntityMetadata, EntityRelationships, EntityType,
    Visibility,
};
use cudgel::kg::query::{
    answer_query, keep_asked, no_match_error, relationship_source, RelationKind,
    RelationshipQueryResult, RelationshipSource,
};
use cudgel::kg::KgError;

fn row(id: i32, name: &str, entity_type: &str, visibility: &str) -> EntityRow {
    EntityRow {
        id,
        name: name.to_string(),
        entity_type: entity_type.to_string(),
        file_path: "src/a.rs".to_string(),
        line_start: 10,
        line_end: 50,
        visibility: visibility.to_string(),
        signature: Some("fn a()".to_string()),
        doc_comment: None,
        language: "rust".to_string(),
        summary: None,
        created_at: 1_700_000_000,
        updated_at: 1_700_000_100,
        component_id: 3,
    }
}

fn rel(t: &str, id: i32) -> RelationshipRow {
    RelationshipRow {
        relationship_type: t.to_string(),
        metadata: None,
        entity: row(id, &format!("E{}", id), "function", "public"),
    }
}

fn entity(id: i32) -> CodeEntity {
    row_to_entity(row(id, "Parser", "struct", "private")).unwrap()
}

#[test]
fn entity_rows_become_entities() {
    let e = row_to_entity(row(1, "parse_file", "function", "public")).unwrap();
    assert_eq!(e.id, 1);
    assert_eq!(e.component_id, 3);
    assert_eq!(e.entity_type, EntityType::Function);
    assert_eq!(e.visibility, Visibility::Public);
    assert_eq!(e.line_start, 10);
    assert_eq!(e.metadata.language, "rust");
    match row_to_entity(row(1, "x", "macro", "public")) {
        Err(KgError::InvalidInput(m)) => assert_eq!(m, "Unknown entity type: macro"),
        _ => panic!("expected invalid input"),
    }
    match row_to_entity(row(1, "x", "trait", "crate")) {
        Err(KgError::InvalidInput(m)) => assert_eq!(m, "Unknown visibility: crate"),
        _ => panic!("expected invalid input"),
    }
}

#[test]
fn names_of_the_vocabulary() {
    assert_eq!(EntityType::parse("interface"), Some(EntityType::Interface));
    assert_eq!(EntityType::Variable.name(), "variable");
    assert_eq!(Visibility::parse("internal"), Some(Visibility::Internal));
    assert_eq!(Visibility::parse("Public"), None);
    assert_eq!(ComponentType::Directory.name(), "directory");
    assert_eq!(DependencyType::Inheritance.name(), "inheritance");
}

#[test]
fn outgoing_rows_fill_outgoing_collections() {
    let rows = vec![rel("depends_on", 1), rel("uses", 2), rel("contains", 3), rel("calls", 4), rel("depends_on", 5)];
    let r = classify_relationships(rows, Direction::Outgoing).unwrap();
    let ids: Vec<i32> = r.dependencies.iter().map(|x| x.entity.id).collect();
    assert_eq!(ids, vec![1, 5]);
    assert_eq!(r.uses.len(), 1);
    assert_eq!(r.calls.len(), 1);
    assert!(r.dependents.is_empty() && r.used_by.is_empty());
    assert_eq!(r.dependencies[0].metadata, "{}");
}

#[test]
fn incoming_rows_fill_incoming_collections() {
    let mut rows = vec![rel("implements", 1), rel("depends_on", 2)];
    rows[0].metadata = Some("{\"k\":1}".to_string());
    let r = classify_relationships(rows, Direction::Incoming).unwrap();
    assert_eq!(r.implemented_by.len(), 1);
    assert_eq!(r.implemented_by[0].metadata, "{\"k\":1}");
    assert_eq!(r.dependents.len(), 1);
    assert!(r.implements.is_empty() && r.dependencies.is_empty());
}

#[test]
fn a_bad_row_fails_the_whole_read() {
    let mut rows = vec![rel("depends_on", 1), rel("uses", 2)];
    rows[1].entity.entity_type = "blob".to_string();
    match classify_relationships(rows, Direction::Outgoing) {
        Err(KgError::InvalidInput(m)) => assert_eq!(m, "Unknown entity type: blob"),
        _ => panic!("expected invalid input"),
    }
}

#[test]
fn all_relationships_merge_both_directions() {
    let out = classify_relationships(vec![rel("depends_on", 1)], Direction::Outgoing).unwrap();
    let inc = classify_relationships(vec![rel("depends_on", 2)], Direction::Incoming).unwrap();
    let all = merge_relationships(out, inc);
    assert_eq!(all.dependencies[0].entity.id, 1);
    assert_eq!(all.dependents[0].entity.id, 2);
}

#[test]
fn a_query_keeps_only_what_it_asks_for() {
    let out = classify_relationships(vec![rel("depends_on", 1), rel("uses", 2)], Direction::Outgoing).unwrap();
    assert_eq!(relationship_source(RelationKind::Uses), RelationshipSource::Outgoing);
    assert_eq!(relationship_source(RelationKind::CalledBy), RelationshipSource::Incoming);
    assert_eq!(relationship_source(RelationKind::AllRelationships), RelationshipSource::All);
    let kept = keep_asked(RelationKind::Uses, out.clone());
    assert_eq!(kept.uses.len(), 1);
    assert!(kept.dependencies.is_empty());
    let all = keep_asked(RelationKind::AllRelationships, out);
    assert_eq!(all.dependencies.len(), 1);
    assert_eq!(all.uses.len(), 1);
    match answer_query(RelationKind::Dependencies, entity(9), EntityRelationships::empty()) {
        RelationshipQueryResult::Success { entity, relationships } => {
            assert_eq!(entity.id, 9);
            assert!(relationships.dependencies.is_empty());
        }
        _ => panic!("expected success"),
    }
}

#[test]
fn unmatched_entities_are_not_found() {
    match no_match_error("Ghost") {
        KgError::NotFound(m) => assert_eq!(
            m,
            "No entities found matching 'Ghost'. Try a different name or check if the repository is indexed."
        ),
        _ => panic!("expected not found"),
    }
}

#[test]
fn kg_errors_have_user_messages() {
    let e = KgError::NotFound("X".to_string());
    assert_eq!(e.message(), "Entity not found: X");
    assert_eq!(
        e.to_user_message(),
        "Entity not found: X\n\nTroubleshooting:\n- Verify the repository is indexed with --enable-graph\n- Check entity name spelling"
    );
    let e = KgError::Query("bad".to_string());
    assert!(e.to_user_message().starts_with("Query error: bad\n\nTroubleshooting:"));
}

#[test]
fn name_lookups_read_unknown_labels_leniently() {
    let metadata = EntityMetadata {
        signature: Some("fn stored()".to_string()),
        doc_comment: Some("stored doc".to_string()),
        language: "rust".to_string(),
    };
    let e = lenient_row_to_entity(row(9, "odd", "macro", "crate"), metadata);
    assert_eq!(e.entity_type, EntityType::Function);
    assert_eq!(e.visibility, Visibility::Private);
    assert_eq!(e.metadata.signature.as_deref(), Some("fn stored()"));
    assert_eq!(e.id, 9);
    assert_eq!(e.component_id, 3);
    assert_eq!(e.line_end, 50);

    let known = lenient_row_to_entity(
        row(10, "Known", "trait", "protected"),
        EntityMetadata { signature: None, doc_comment: None, language: String::new() },
    );
    assert_eq!(known.entity_type, EntityType::Trait);
    assert_eq!(known.visibility, Visibility::Protected);
}
