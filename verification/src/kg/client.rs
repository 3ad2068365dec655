//! How the rows that the graph tables return become entities and
//! relationships.
use vstd::prelude::*;
use crate::kg::{KgError, KgResult};
use crate::kg::model::{
    CodeEntity, EntityMetadata, EntityRelationships, EntityType, RelatedEntity, Visibility,
};
use crate::text::{cat, str_eq};

verus! {

/// Record ids of the graph tables.
pub type RecordId = i32;

/// The columns of an entity as the graph tables return them.
#[derive(Debug, Clone)]
pub struct EntityRow {
    pub id: i32,
    pub name: String,
    pub entity_type: String,
    pub file_path: String,
    pub line_start: i32,
    pub line_end: i32,
    pub visibility: String,
    pub signature: Option<String>,
    pub doc_comment: Option<String>,
    pub language: String,
    pub summary: Option<String>,
    pub created_at: i64,
    pub updated_at: i64,
    pub component_id: i32,
}

/// Why an entity row cannot be read, if it cannot.
pub open spec fn row_problem(row: EntityRow) -> Option<Seq<char>> {
    if EntityType::from_label(row.entity_type@) is None {
        Some("Unknown entity type: "@ + row.entity_type@)
    } else if Visibility::from_label(row.visibility@) is None {
        Some("Unknown visibility: "@ + row.visibility@)
    } else {
        None
    }
}

/// `e` is the entity that `row` describes.
pub open spec fn entity_of_row(e: CodeEntity, row: EntityRow) -> bool {
    &&& e.id == row.id
    &&& e.component_id == row.component_id
    &&& e.name == row.name
    &&& Some(e.entity_type) == EntityType::from_label(row.entity_type@)
    &&& e.file_path == row.file_path
    &&& e.line_start == row.line_start as u32
    &&& e.line_end == row.line_end as u32
    &&& Some(e.visibility) == Visibility::from_label(row.visibility@)
    &&& e.metadata.signature == row.signature
    &&& e.metadata.doc_comment == row.doc_comment
    &&& e.metadata.language == row.language
    &&& e.summary == row.summary
    &&& e.created_at == row.created_at
    &&& e.updated_at == row.updated_at
}

/// Reads an entity row; an unknown entity type or visibility is an
/// `InvalidInput` error.
pub fn row_to_entity(row: EntityRow) -> (res: KgResult<CodeEntity>)
    ensures
        match row_problem(row) {
            Some(m) => res matches Err(KgError::InvalidInput(e)) && e@ == m,
            None => res matches Ok(e) && entity_of_row(e, row),
        },
{
    let entity_type = match EntityType::parse(row.entity_type.as_str()) {
        Some(t) => t,
        None => {
            return Err(KgError::InvalidInput(cat("Unknown entity type: ", row.entity_type.as_str())));
        },
    };
    let visibility = match Visibility::parse(row.visibility.as_str()) {
        Some(v) => v,
        None => {
            return Err(KgError::InvalidInput(cat("Unknown visibility: ", row.visibility.as_str())));
        },
    };
    Ok(
        CodeEntity {
            id: row.id,
            component_id: row.component_id,
            name: row.name,
            entity_type,
            file_path: row.file_path,
            line_start: row.line_start as u32,
            line_end: row.line_end as u32,
            visibility,
            metadata: EntityMetadata {
                signature: row.signature,
                doc_comment: row.doc_comment,
                language: row.language,
            },
            summary: row.summary,
            created_at: row.created_at,
            updated_at: row.updated_at,
        },
    )
}

/// The entity type that a label names, an unknown label reading as a
/// function.
pub open spec fn lenient_entity_type(label: Seq<char>) -> EntityType {
    match EntityType::from_label(label) {
        Some(t) => t,
        None => EntityType::Function,
    }
}

/// The visibility that a label names, an unknown label reading as private.
pub open spec fn lenient_visibility(label: Seq<char>) -> Visibility {
    match Visibility::from_label(label) {
        Some(v) => v,
        None => Visibility::Private,
    }
}

/// Reads an entity row found by a name lookup or search: there an unknown
/// entity type reads as a function and an unknown visibility as private,
/// and the metadata is the one stored with the entity (`metadata`, the
/// default when it cannot be read), not the signature and doc columns.
pub fn lenient_row_to_entity(row: EntityRow, metadata: EntityMetadata) -> (e: CodeEntity)
    ensures
        e.id == row.id,
        e.component_id == row.component_id,
        e.name == row.name,
        e.entity_type == lenient_entity_type(row.entity_type@),
        e.file_path == row.file_path,
        e.line_start == row.line_start as u32,
        e.line_end == row.line_end as u32,
        e.visibility == lenient_visibility(row.visibility@),
        e.metadata == metadata,
        e.summary == row.summary,
        e.created_at == row.created_at,
        e.updated_at == row.updated_at,
{
    let entity_type = match EntityType::parse(row.entity_type.as_str()) {
        Some(t) => t,
        None => EntityType::Function,
    };
    let visibility = match Visibility::parse(row.visibility.as_str()) {
        Some(v) => v,
        None => Visibility::Private,
    };
    CodeEntity {
        id: row.id,
        component_id: row.component_id,
        name: row.name,
        entity_type,
        file_path: row.file_path,
        line_start: row.line_start as u32,
        line_end: row.line_end as u32,
        visibility,
        metadata,
        summary: row.summary,
        created_at: row.created_at,
        updated_at: row.updated_at,
    }
}

/// A relationship row: the relationship's type and metadata (JSON text, if
/// any) and the entity at its other end.
#[derive(Debug, Clone)]
pub struct RelationshipRow {
    pub relationship_type: String,
    pub metadata: Option<String>,
    pub entity: EntityRow,
}

/// Which end of its relationships an entity is at.
#[derive(Debug, Clone, Copy, PartialEq, Eq, Structural)]
pub enum Direction {
    /// The entity is where the relationships start
    Outgoing,
    /// The entity is where the relationships end
    Incoming,
}

/// `r` is what `row` becomes: the entity of the row, the row's type, and its
/// metadata or `{}` when it has none.
pub open spec fn related_of_row(r: RelatedEntity, row: RelationshipRow) -> bool {
    &&& entity_of_row(r.entity, row.entity)
    &&& r.relationship_type == row.relationship_type
    &&& r.metadata@ == match row.metadata {
        Some(m) => m@,
        None => "{}"@,
    }
}

/// The rows of `rows` whose relationship type is `t`, in order.
pub open spec fn rows_of_type(rows: Seq<RelationshipRow>, t: Seq<char>) -> Seq<RelationshipRow>
    decreases rows.len(),
{
    if rows.len() == 0 {
        Seq::empty()
    } else {
        let p = rows_of_type(rows.drop_last(), t);
        if rows.last().relationship_type@ == t {
            p.push(rows.last())
        } else {
            p
        }
    }
}

/// The first row of `rows` whose entity cannot be read, with the reason.
pub open spec fn first_row_problem(rows: Seq<RelationshipRow>) -> Option<Seq<char>>
    decreases rows.len(),
{
    if rows.len() == 0 {
        None
    } else if first_row_problem(rows.drop_last()) is Some {
        first_row_problem(rows.drop_last())
    } else {
        row_problem(rows.last().entity)
    }
}

/// `rs` are the rows `rows`, each made into a related entity.
pub open spec fn related_of_rows(rs: Seq<RelatedEntity>, rows: Seq<RelationshipRow>) -> bool {
    &&& rs.len() == rows.len()
    &&& forall|i: int| 0 <= i < rows.len() ==> related_of_row(#[trigger] rs[i], rows[i])
}

/// The relationships of an entity read from rows in one direction: the
/// `depends_on`, `uses`, `calls` and `implements` rows fill the four
/// collections of that direction, in order; rows of other types are left
/// out; the first row whose entity cannot be read makes it an error.
pub open spec fn classified(r: EntityRelationships, rows: Seq<RelationshipRow>, d: Direction) -> bool {
    let deps = related_of_rows(
        if d == Direction::Outgoing {
            r.dependencies@
        } else {
            r.dependents@
        },
        rows_of_type(rows, "depends_on"@),
    );
    let uses = related_of_rows(
        if d == Direction::Outgoing {
            r.uses@
        } else {
            r.used_by@
        },
        rows_of_type(rows, "uses"@),
    );
    let calls = related_of_rows(
        if d == Direction::Outgoing {
            r.calls@
        } else {
            r.called_by@
        },
        rows_of_type(rows, "calls"@),
    );
    let imps = related_of_rows(
        if d == Direction::Outgoing {
            r.implements@
        } else {
            r.implemented_by@
        },
        rows_of_type(rows, "implements"@),
    );
    let others_empty = if d == Direction::Outgoing {
        r.dependents@.len() == 0 && r.used_by@.len() == 0 && r.called_by@.len() == 0
            && r.implemented_by@.len() == 0
    } else {
        r.dependencies@.len() == 0 && r.uses@.len() == 0 && r.calls@.len() == 0
            && r.implements@.len() == 0
    };
    deps && uses && calls && imps && others_empty
}

fn push_related(v: &mut Vec<RelatedEntity>, r: RelatedEntity, Ghost(rows): Ghost<Seq<RelationshipRow>>, Ghost(row): Ghost<RelationshipRow>)
    requires
        related_of_rows(old(v)@, rows),
        related_of_row(r, row),
    ensures
        related_of_rows(final(v)@, rows.push(row)),
{
    v.push(r);
    assert forall|i: int| 0 <= i < rows.push(row).len() implies related_of_row(
        #[trigger] v@[i],
        rows.push(row)[i],
    ) by {
        if i < rows.len() {
            assert(related_of_row(old(v)@[i], rows[i]));
        }
    }
}

/// Reads the relationship rows of an entity in direction `d` (see
/// [`classified`]).
pub fn classify_relationships(rows: Vec<RelationshipRow>, d: Direction) -> (res: KgResult<
    EntityRelationships,
>)
    ensures
        match first_row_problem(rows@) {
            Some(m) => res matches Err(KgError::InvalidInput(e)) && e@ == m,
            None => res matches Ok(r) && classified(r, rows@, d),
        },
{
    let ghost all = rows@;
    let n = rows.len();
    let mut out = EntityRelationships::empty();
    let mut i: usize = 0;
    let mut rest = rows;
    assert(all.take(0) =~= Seq::<RelationshipRow>::empty());
    assert(all.skip(0) =~= all);
    proof {
        reveal_strlit("depends_on");
        reveal_strlit("uses");
        reveal_strlit("calls");
        reveal_strlit("implements");
    }
    while rest.len() > 0
        invariant
            i + rest@.len() == all.len(),
            all.len() == n,
            all == rows@,
            rest@ == all.skip(i as int),
            first_row_problem(all.take(i as int)) is None,
            classified(out, all.take(i as int), d),
        decreases rest@.len(),
    {
        let row = rest.remove(0);
        assert(rest@ =~= all.skip(i + 1));
        let ghost prefix = all.take(i + 1);
        assert(row == all[i as int]);
        assert(prefix.drop_last() =~= all.take(i as int));
        assert(prefix.last() == row);
        let ghost row_g = row;
        let t = row.relationship_type.clone();
        let metadata = match row.metadata {
            Some(m) => m,
            None => String::from_str("{}"),
        };
        let entity = match row_to_entity(row.entity) {
            Ok(e) => e,
            Err(e) => {
                proof {
                    assert(row_problem(row_g.entity) is Some);
                    assert(e matches KgError::InvalidInput(m) && m@ == row_problem(row_g.entity).unwrap());
                    assert(first_row_problem(prefix.drop_last()) is None);
                    assert(first_row_problem(prefix) == row_problem(row_g.entity));
                    assert(first_row_problem(all) == first_row_problem(prefix)) by {
                        lemma_first_problem_prefix(all, i + 1);
                    }
                }
                return Err(e);
            },
        };
        let related = RelatedEntity { entity, relationship_type: t, metadata };
        assert(related_of_row(related, row_g));
        let ghost before = out;
        let ghost p0 = all.take(i as int);
        proof {
            reveal_strlit("depends_on");
            reveal_strlit("uses");
            reveal_strlit("calls");
            reveal_strlit("implements");
            assert("depends_on"@.len() == 10);
            assert("uses"@.len() == 4);
            assert("calls"@.len() == 5);
            assert("implements"@.len() == 10);
            assert("depends_on"@[0] != "implements"@[0]);
            assert(rows_of_type(prefix, "depends_on"@) == if row_g.relationship_type@ == "depends_on"@ {
                rows_of_type(p0, "depends_on"@).push(row_g)
            } else {
                rows_of_type(p0, "depends_on"@)
            });
            assert(rows_of_type(prefix, "uses"@) == if row_g.relationship_type@ == "uses"@ {
                rows_of_type(p0, "uses"@).push(row_g)
            } else {
                rows_of_type(p0, "uses"@)
            });
            assert(rows_of_type(prefix, "calls"@) == if row_g.relationship_type@ == "calls"@ {
                rows_of_type(p0, "calls"@).push(row_g)
            } else {
                rows_of_type(p0, "calls"@)
            });
            assert(rows_of_type(prefix, "implements"@) == if row_g.relationship_type@ == "implements"@ {
                rows_of_type(p0, "implements"@).push(row_g)
            } else {
                rows_of_type(p0, "implements"@)
            });
        }
        if str_eq(related.relationship_type.as_str(), "depends_on") {
            if d == Direction::Outgoing {
                push_related(&mut out.dependencies, related, Ghost(rows_of_type(p0, "depends_on"@)), Ghost(row_g));
            } else {
                push_related(&mut out.dependents, related, Ghost(rows_of_type(p0, "depends_on"@)), Ghost(row_g));
            }
        } else if str_eq(related.relationship_type.as_str(), "uses") {
            if d == Direction::Outgoing {
                push_related(&mut out.uses, related, Ghost(rows_of_type(p0, "uses"@)), Ghost(row_g));
            } else {
                push_related(&mut out.used_by, related, Ghost(rows_of_type(p0, "uses"@)), Ghost(row_g));
            }
        } else if str_eq(related.relationship_type.as_str(), "calls") {
            if d == Direction::Outgoing {
                push_related(&mut out.calls, related, Ghost(rows_of_type(p0, "calls"@)), Ghost(row_g));
            } else {
                push_related(&mut out.called_by, related, Ghost(rows_of_type(p0, "calls"@)), Ghost(row_g));
            }
        } else if str_eq(related.relationship_type.as_str(), "implements") {
            if d == Direction::Outgoing {
                push_related(&mut out.implements, related, Ghost(rows_of_type(p0, "implements"@)), Ghost(row_g));
            } else {
                push_related(&mut out.implemented_by, related, Ghost(rows_of_type(p0, "implements"@)), Ghost(row_g));
            }
        }
        i = i + 1;
    }
    assert(all.take(i as int) =~= all);
    Ok(out)
}

/// Once a prefix has a problem, the whole sequence has that problem.
proof fn lemma_first_problem_prefix(rows: Seq<RelationshipRow>, n: int)
    requires
        0 <= n <= rows.len(),
        first_row_problem(rows.take(n)) is Some,
    ensures
        first_row_problem(rows) == first_row_problem(rows.take(n)),
    decreases rows.len() - n,
{
    if n < rows.len() {
        assert(rows.take(n + 1).drop_last() =~= rows.take(n));
        lemma_first_problem_prefix(rows, n + 1);
    } else {
        assert(rows.take(n) =~= rows);
    }
}

/// All the relationships of an entity: what it depends on, uses, calls and
/// implements from `outgoing`; what depends on it, uses, calls and
/// implements it from `incoming`.
pub fn merge_relationships(outgoing: EntityRelationships, incoming: EntityRelationships) -> (r:
    EntityRelationships)
    ensures
        r.dependencies == outgoing.dependencies,
        r.dependents == incoming.dependents,
        r.uses == outgoing.uses,
        r.used_by == incoming.used_by,
        r.calls == outgoing.calls,
        r.called_by == incoming.called_by,
        r.implements == outgoing.implements,
        r.implemented_by == incoming.implemented_by,
{
    EntityRelationships {
        dependencies: outgoing.dependencies,
        dependents: incoming.dependents,
        uses: outgoing.uses,
        used_by: incoming.used_by,
        calls: outgoing.calls,
        called_by: incoming.called_by,
        implements: outgoing.implements,
        implemented_by: incoming.implemented_by,
    }
}

} // verus!
