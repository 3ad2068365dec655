//! Natural-language relationship queries: what a query asks for, and which
//! relationships of the matched entity answer it.
use vstd::prelude::*;
use crate::kg::{KgError, KgResult};
use crate::kg::client::{classified, related_of_rows, rows_of_type, Direction, RelationshipRow};
use crate::kg::model::{CodeEntity, EntityRelationships, RelatedEntity};
use crate::text::{cat3, is_blank, trim};

verus! {

// ---------------------------------------------------------------------------
// Relationship queries in natural language
// ---------------------------------------------------------------------------

/// What a relationship query asks for.
#[derive(Debug, Clone, Copy, PartialEq, Eq, Structural)]
pub enum RelationKind {
    /// What an entity depends on
    Dependencies,
    /// What depends on an entity
    Dependents,
    /// All relationships of an entity
    AllRelationships,
    /// What an entity uses
    Uses,
    /// What uses an entity
    UsedBy,
    /// What an entity calls
    Calls,
    /// What calls an entity
    CalledBy,
    /// What an entity implements
    Implements,
    /// What implements an entity
    ImplementedBy,
}

/// Intent extracted from a natural language query.
#[derive(Debug, Clone, PartialEq, Eq)]
pub enum QueryIntent {
    Dependencies { entity_name: String },
    Dependents { entity_name: String },
    AllRelationships { entity_name: String },
    Uses { entity_name: String },
    UsedBy { entity_name: String },
    Calls { entity_name: String },
    CalledBy { entity_name: String },
    Implements { entity_name: String },
    ImplementedBy { entity_name: String },
}

impl QueryIntent {
    /// The kind of relationship asked for.
    pub open spec fn kind(&self) -> RelationKind {
        match self {
            QueryIntent::Dependencies { .. } => RelationKind::Dependencies,
            QueryIntent::Dependents { .. } => RelationKind::Dependents,
            QueryIntent::AllRelationships { .. } => RelationKind::AllRelationships,
            QueryIntent::Uses { .. } => RelationKind::Uses,
            QueryIntent::UsedBy { .. } => RelationKind::UsedBy,
            QueryIntent::Calls { .. } => RelationKind::Calls,
            QueryIntent::CalledBy { .. } => RelationKind::CalledBy,
            QueryIntent::Implements { .. } => RelationKind::Implements,
            QueryIntent::ImplementedBy { .. } => RelationKind::ImplementedBy,
        }
    }

    /// The entity that the query is about.
    pub open spec fn name(&self) -> Seq<char> {
        match self {
            QueryIntent::Dependencies { entity_name } => entity_name@,
            QueryIntent::Dependents { entity_name } => entity_name@,
            QueryIntent::AllRelationships { entity_name } => entity_name@,
            QueryIntent::Uses { entity_name } => entity_name@,
            QueryIntent::UsedBy { entity_name } => entity_name@,
            QueryIntent::Calls { entity_name } => entity_name@,
            QueryIntent::CalledBy { entity_name } => entity_name@,
            QueryIntent::Implements { entity_name } => entity_name@,
            QueryIntent::ImplementedBy { entity_name } => entity_name@,
        }
    }

    /// The kind of relationship asked for.
    pub fn relation_kind(&self) -> (k: RelationKind)
        ensures
            k == self.kind(),
    {
        match self {
            QueryIntent::Dependencies { .. } => RelationKind::Dependencies,
            QueryIntent::Dependents { .. } => RelationKind::Dependents,
            QueryIntent::AllRelationships { .. } => RelationKind::AllRelationships,
            QueryIntent::Uses { .. } => RelationKind::Uses,
            QueryIntent::UsedBy { .. } => RelationKind::UsedBy,
            QueryIntent::Calls { .. } => RelationKind::Calls,
            QueryIntent::CalledBy { .. } => RelationKind::CalledBy,
            QueryIntent::Implements { .. } => RelationKind::Implements,
            QueryIntent::ImplementedBy { .. } => RelationKind::ImplementedBy,
        }
    }

    /// The intent of the given kind about the given entity.
    pub fn of(kind: RelationKind, entity_name: String) -> (res: QueryIntent)
        ensures
            res.kind() == kind,
            res.name() == entity_name@,
    {
        match kind {
            RelationKind::Dependencies => QueryIntent::Dependencies { entity_name },
            RelationKind::Dependents => QueryIntent::Dependents { entity_name },
            RelationKind::AllRelationships => QueryIntent::AllRelationships { entity_name },
            RelationKind::Uses => QueryIntent::Uses { entity_name },
            RelationKind::UsedBy => QueryIntent::UsedBy { entity_name },
            RelationKind::Calls => QueryIntent::Calls { entity_name },
            RelationKind::CalledBy => QueryIntent::CalledBy { entity_name },
            RelationKind::Implements => QueryIntent::Implements { entity_name },
            RelationKind::ImplementedBy => QueryIntent::ImplementedBy { entity_name },
        }
    }

    /// The entity that the query is about.
    pub fn entity_name(&self) -> (res: &String)
        ensures
            res@ == self.name(),
    {
        match self {
            QueryIntent::Dependencies { entity_name } => entity_name,
            QueryIntent::Dependents { entity_name } => entity_name,
            QueryIntent::AllRelationships { entity_name } => entity_name,
            QueryIntent::Uses { entity_name } => entity_name,
            QueryIntent::UsedBy { entity_name } => entity_name,
            QueryIntent::Calls { entity_name } => entity_name,
            QueryIntent::CalledBy { entity_name } => entity_name,
            QueryIntent::Implements { entity_name } => entity_name,
            QueryIntent::ImplementedBy { entity_name } => entity_name,
        }
    }
}

/// What the `regex` crate gives for `pattern` on `text`: the text of capture
/// group 1 of the leftmost match, or `None` when there is no match (or the
/// group took no part in it, or the pattern does not compile).
pub uninterp spec fn regex_group1(pattern: Seq<char>, text: Seq<char>) -> Option<Seq<char>>;

/// Compiles `pattern` with `regex::Regex::new`, and returns capture group 1
/// of `Regex::captures(text)`.  The contract says only that the result is
/// the one that `regex_group1` names.
#[verifier::external_body]
fn regex_capture(pattern: &str, text: &str) -> (res: Option<String>)
    ensures
        match regex_group1(pattern@, text@) {
            None => res.is_none(),
            Some(g) => res.is_some() && res.unwrap()@ == g,
        },
{
    regex::Regex::new(pattern).ok()?.captures(text)?.get(1).map(|m| m.as_str().to_string())
}

/// The query patterns, most specific first, with the kind each one asks for.
pub open spec fn query_patterns() -> Seq<(Seq<char>, RelationKind)> {
    seq![
        (r"(?i)what\s+(?:does|do)\s+(\w+)\s+depend"@, RelationKind::Dependencies),
        (r"(?i)(?:show\s+)?dependencies\s+(?:of|for)\s+(\w+)"@, RelationKind::Dependencies),
        (r"(?i)what\s+depends\s+on\s+(\w+)"@, RelationKind::Dependents),
        (r"(?i)(?:show\s+)?dependents\s+(?:of|for)\s+(\w+)"@, RelationKind::Dependents),
        (r"(?i)(\w+)\s+depend(?:s|encies)?\s+on"@, RelationKind::Dependencies),
        (r"(?i)what\s+(?:does|do)\s+(\w+)\s+use"@, RelationKind::Uses),
        (r"(?i)(\w+)\s+uses?\s+what"@, RelationKind::Uses),
        (r"(?i)what\s+uses\s+(\w+)"@, RelationKind::UsedBy),
        (r"(?i)what\s+(?:does|do)\s+(\w+)\s+call"@, RelationKind::Calls),
        (r"(?i)(\w+)\s+calls?\s+what"@, RelationKind::Calls),
        (r"(?i)what\s+calls\s+(\w+)"@, RelationKind::CalledBy),
        (r"(?i)what\s+(?:does|do)\s+(\w+)\s+implement"@, RelationKind::Implements),
        (r"(?i)(\w+)\s+implements?\s+what"@, RelationKind::Implements),
        (r"(?i)what\s+implements\s+(\w+)"@, RelationKind::ImplementedBy),
        (r"(?i)what\s+(?:does|do)\s+(\w+)\s+interact"@, RelationKind::AllRelationships),
        (r"(?i)(\w+)\s+interact(?:s)?\s+with"@, RelationKind::AllRelationships),
        (r"(?i)(?:show\s+)?(?:all\s+)?relationships\s+(?:of|for)\s+(\w+)"@, RelationKind::AllRelationships),
    ]
}

/// The first pattern of `ps` that captures an entity name in `query`, with
/// that name.
pub open spec fn first_match(ps: Seq<(Seq<char>, RelationKind)>, query: Seq<char>) -> Option<
    (RelationKind, Seq<char>),
>
    decreases ps.len(),
{
    if ps.len() == 0 {
        None
    } else if regex_group1(ps[0].0, query) is Some {
        Some((ps[0].1, regex_group1(ps[0].0, query).unwrap()))
    } else {
        first_match(ps.drop_first(), query)
    }
}

/// The phrasings of a query of each kind, as regular expressions whose
/// group 1 is the entity asked about.
pub open spec fn phrasings(kind: RelationKind) -> Set<Seq<char>> {
    match kind {
        RelationKind::Dependencies => set![
            r"(?i)what\s+(?:does|do)\s+(\w+)\s+depend"@,
            r"(?i)(?:show\s+)?dependencies\s+(?:of|for)\s+(\w+)"@,
            r"(?i)(\w+)\s+depend(?:s|encies)?\s+on"@,
        ],
        RelationKind::Dependents => set![
            r"(?i)what\s+depends\s+on\s+(\w+)"@,
            r"(?i)(?:show\s+)?dependents\s+(?:of|for)\s+(\w+)"@,
        ],
        RelationKind::Uses => set![r"(?i)what\s+(?:does|do)\s+(\w+)\s+use"@, r"(?i)(\w+)\s+uses?\s+what"@],
        RelationKind::UsedBy => set![r"(?i)what\s+uses\s+(\w+)"@],
        RelationKind::Calls => set![r"(?i)what\s+(?:does|do)\s+(\w+)\s+call"@, r"(?i)(\w+)\s+calls?\s+what"@],
        RelationKind::CalledBy => set![r"(?i)what\s+calls\s+(\w+)"@],
        RelationKind::Implements => set![
            r"(?i)what\s+(?:does|do)\s+(\w+)\s+implement"@,
            r"(?i)(\w+)\s+implements?\s+what"@,
        ],
        RelationKind::ImplementedBy => set![r"(?i)what\s+implements\s+(\w+)"@],
        RelationKind::AllRelationships => set![
            r"(?i)what\s+(?:does|do)\s+(\w+)\s+interact"@,
            r"(?i)(\w+)\s+interact(?:s)?\s+with"@,
            r"(?i)(?:show\s+)?(?:all\s+)?relationships\s+(?:of|for)\s+(\w+)"@,
        ],
    }
}

proof fn lemma_first_match_is_a_phrasing(ps: Seq<(Seq<char>, RelationKind)>, query: Seq<char>)
    requires
        forall|i: int| 0 <= i < ps.len() ==> #[trigger] phrasings(ps[i].1).contains(ps[i].0),
    ensures
        first_match(ps, query) matches Some((kind, name)) ==> exists|p: Seq<char>|
            #[trigger] phrasings(kind).contains(p) && regex_group1(p, query) == Some(name),
    decreases ps.len(),
{
    if ps.len() > 0 {
        assert(phrasings(ps[0].1).contains(ps[0].0));
        if regex_group1(ps[0].0, query) is None {
            assert forall|i: int| 0 <= i < ps.drop_first().len() implies #[trigger] phrasings(
                ps.drop_first()[i].1,
            ).contains(ps.drop_first()[i].0) by {
                assert(ps.drop_first()[i] == ps[i + 1]);
            }
            lemma_first_match_is_a_phrasing(ps.drop_first(), query);
        }
    }
}

/// A query is understood by the meaning of its phrasing: whenever the
/// default parser makes an intent of some kind about some entity, a
/// phrasing of that kind (such as `X calls what` or `what does X call` for
/// `Calls`, and only `what calls X` for `CalledBy`) captures that entity in
/// the query.
pub proof fn law_intent_kind_follows_the_phrasing(query: Seq<char>)
    ensures
        first_match(query_patterns(), query) matches Some((kind, name)) ==> exists|p: Seq<char>|
            #[trigger] phrasings(kind).contains(p) && regex_group1(p, query) == Some(name),
{
    let ps = query_patterns();
    assert forall|i: int| 0 <= i < ps.len() implies #[trigger] phrasings(ps[i].1).contains(ps[i].0) by {
        assert(ps[0].1 == RelationKind::Dependencies && phrasings(ps[0].1).contains(ps[0].0));
        assert(phrasings(ps[1].1).contains(ps[1].0));
        assert(phrasings(ps[2].1).contains(ps[2].0));
        assert(phrasings(ps[3].1).contains(ps[3].0));
        assert(phrasings(ps[4].1).contains(ps[4].0));
        assert(phrasings(ps[5].1).contains(ps[5].0));
        assert(phrasings(ps[6].1).contains(ps[6].0));
        assert(phrasings(ps[7].1).contains(ps[7].0));
        assert(phrasings(ps[8].1).contains(ps[8].0));
        assert(phrasings(ps[9].1).contains(ps[9].0));
        assert(phrasings(ps[10].1).contains(ps[10].0));
        assert(phrasings(ps[11].1).contains(ps[11].0));
        assert(phrasings(ps[12].1).contains(ps[12].0));
        assert(phrasings(ps[13].1).contains(ps[13].0));
        assert(phrasings(ps[14].1).contains(ps[14].0));
        assert(phrasings(ps[15].1).contains(ps[15].0));
        assert(phrasings(ps[16].1).contains(ps[16].0));
    }
    lemma_first_match_is_a_phrasing(ps, query);
}

/// The message for a query that no pattern understands.
pub open spec fn unparsed_query_message(query: Seq<char>) -> Seq<char> {
    "Could not parse query: '"@ + query
        + "'\n\nSupported patterns:\n- 'what does X depend on' / 'dependencies of X'\n- 'what depends on X' / 'dependents of X'\n- 'what does X use' / 'what uses X'\n- 'what does X call' / 'what calls X'\n- 'what does X implement' / 'what implements X'\n- 'what does X interact with' / 'relationships of X'"@
}

/// Parser for natural language relationship queries.
pub struct QueryParser {
    patterns: Vec<(String, RelationKind)>,
}

impl QueryParser {
    /// The patterns this parser tries, in order.
    pub closed spec fn pattern_list(&self) -> Seq<(Seq<char>, RelationKind)> {
        self.patterns@.map_values(|p: (String, RelationKind)| (p.0@, p.1))
    }

    /// A parser with the default patterns.
    pub fn new() -> (p: QueryParser)
        ensures
            p.pattern_list() == query_patterns(),
    {
        let mut v: Vec<(String, RelationKind)> = Vec::new();
        v.push((String::from_str(r"(?i)what\s+(?:does|do)\s+(\w+)\s+depend"), RelationKind::Dependencies));
        v.push((String::from_str(r"(?i)(?:show\s+)?dependencies\s+(?:of|for)\s+(\w+)"), RelationKind::Dependencies));
        v.push((String::from_str(r"(?i)what\s+depends\s+on\s+(\w+)"), RelationKind::Dependents));
        v.push((String::from_str(r"(?i)(?:show\s+)?dependents\s+(?:of|for)\s+(\w+)"), RelationKind::Dependents));
        v.push((String::from_str(r"(?i)(\w+)\s+depend(?:s|encies)?\s+on"), RelationKind::Dependencies));
        v.push((String::from_str(r"(?i)what\s+(?:does|do)\s+(\w+)\s+use"), RelationKind::Uses));
        v.push((String::from_str(r"(?i)(\w+)\s+uses?\s+what"), RelationKind::Uses));
        v.push((String::from_str(r"(?i)what\s+uses\s+(\w+)"), RelationKind::UsedBy));
        v.push((String::from_str(r"(?i)what\s+(?:does|do)\s+(\w+)\s+call"), RelationKind::Calls));
        v.push((String::from_str(r"(?i)(\w+)\s+calls?\s+what"), RelationKind::Calls));
        v.push((String::from_str(r"(?i)what\s+calls\s+(\w+)"), RelationKind::CalledBy));
        v.push((String::from_str(r"(?i)what\s+(?:does|do)\s+(\w+)\s+implement"), RelationKind::Implements));
        v.push((String::from_str(r"(?i)(\w+)\s+implements?\s+what"), RelationKind::Implements));
        v.push((String::from_str(r"(?i)what\s+implements\s+(\w+)"), RelationKind::ImplementedBy));
        v.push((String::from_str(r"(?i)what\s+(?:does|do)\s+(\w+)\s+interact"), RelationKind::AllRelationships));
        v.push((String::from_str(r"(?i)(\w+)\s+interact(?:s)?\s+with"), RelationKind::AllRelationships));
        v.push((String::from_str(r"(?i)(?:show\s+)?(?:all\s+)?relationships\s+(?:of|for)\s+(\w+)"), RelationKind::AllRelationships));
        let p = QueryParser { patterns: v };
        assert(p.pattern_list() =~= query_patterns());
        p
    }

    /// Parses a natural language query: the first pattern that captures an
    /// entity name decides the intent.  A blank query, or one that no
    /// pattern understands, is a `KgError::Query`.
    pub fn parse(&self, query: &str) -> (res: KgResult<QueryIntent>)
        ensures
            trim(query@).len() == 0 ==> (res matches Err(KgError::Query(m)) && m@
                == "Query cannot be empty"@),
            trim(query@).len() != 0 ==> match first_match(self.pattern_list(), query@) {
                Some((kind, name)) => res matches Ok(intent) && intent.kind() == kind
                    && intent.name() == name,
                None => res matches Err(KgError::Query(m)) && m@ == unparsed_query_message(
                    query@,
                ),
            },
    {
        if is_blank(query) {
            return Err(KgError::Query(String::from_str("Query cannot be empty")));
        }
        let ghost ps = self.pattern_list();
        let mut i: usize = 0;
        assert(ps.skip(0) =~= ps);
        while i < self.patterns.len()
            invariant
                i <= self.patterns.len(),
                ps == self.pattern_list(),
                ps.len() == self.patterns@.len(),
                trim(query@).len() != 0,
                first_match(ps.skip(i as int), query@) == first_match(ps, query@),
            decreases self.patterns.len() - i,
        {
            let (pattern, kind) = &self.patterns[i];
            assert(ps.skip(i as int)[0] == ps[i as int]);
            assert(ps[i as int] == (pattern@, *kind));
            if let Some(name) = regex_capture(pattern.as_str(), query) {
                return Ok(QueryIntent::of(*kind, name));
            }
            assert(ps.skip(i as int).drop_first() =~= ps.skip(i + 1));
            i = i + 1;
        }
        assert(ps.skip(i as int).len() == 0);
        Err(
            KgError::Query(
                cat3(
                    "Could not parse query: '",
                    query,
                    "'\n\nSupported patterns:\n- 'what does X depend on' / 'dependencies of X'\n- 'what depends on X' / 'dependents of X'\n- 'what does X use' / 'what uses X'\n- 'what does X call' / 'what calls X'\n- 'what does X implement' / 'what implements X'\n- 'what does X interact with' / 'relationships of X'",
                ),
            ),
        )
    }
}


// ---------------------------------------------------------------------------
// Answering a relationship query
// ---------------------------------------------------------------------------

/// Which relationships of the matched entity must be read to answer a query.
#[derive(Debug, Clone, Copy, PartialEq, Eq)]
pub enum RelationshipSource {
    /// Those that start at the entity
    Outgoing,
    /// Those that end at the entity
    Incoming,
    /// Both
    All,
}

/// The relationships that answer a query of kind `kind`.
pub open spec fn source_of(kind: RelationKind) -> RelationshipSource {
    match kind {
        RelationKind::Dependencies | RelationKind::Uses | RelationKind::Calls
        | RelationKind::Implements => RelationshipSource::Outgoing,
        RelationKind::Dependents | RelationKind::UsedBy | RelationKind::CalledBy
        | RelationKind::ImplementedBy => RelationshipSource::Incoming,
        RelationKind::AllRelationships => RelationshipSource::All,
    }
}

/// Which relationships to read for a query of kind `kind`.
pub fn relationship_source(kind: RelationKind) -> (s: RelationshipSource)
    ensures
        s == source_of(kind),
{
    match kind {
        RelationKind::Dependencies | RelationKind::Uses | RelationKind::Calls
        | RelationKind::Implements => RelationshipSource::Outgoing,
        RelationKind::Dependents | RelationKind::UsedBy | RelationKind::CalledBy
        | RelationKind::ImplementedBy => RelationshipSource::Incoming,
        RelationKind::AllRelationships => RelationshipSource::All,
    }
}

/// The type of the relationships that a query of kind `kind` is about (all
/// types for `AllRelationships`, given here as the empty text).
pub open spec fn asked_type(kind: RelationKind) -> Seq<char> {
    match kind {
        RelationKind::Dependencies | RelationKind::Dependents => "depends_on"@,
        RelationKind::Uses | RelationKind::UsedBy => "uses"@,
        RelationKind::Calls | RelationKind::CalledBy => "calls"@,
        RelationKind::Implements | RelationKind::ImplementedBy => "implements"@,
        RelationKind::AllRelationships => Seq::empty(),
    }
}

/// The collection of `r` that answers a query of kind `kind` (none for
/// `AllRelationships`, which is answered by all of them).
pub open spec fn asked_collection(kind: RelationKind, r: EntityRelationships) -> Seq<RelatedEntity> {
    match kind {
        RelationKind::Dependencies => r.dependencies@,
        RelationKind::Dependents => r.dependents@,
        RelationKind::Uses => r.uses@,
        RelationKind::UsedBy => r.used_by@,
        RelationKind::Calls => r.calls@,
        RelationKind::CalledBy => r.called_by@,
        RelationKind::Implements => r.implements@,
        RelationKind::ImplementedBy => r.implemented_by@,
        RelationKind::AllRelationships => Seq::empty(),
    }
}

/// A query about one kind of relationship reads the relationships of the
/// entity in one direction, and in the direction that fills the collection
/// it answers with: what an entity depends on, uses, calls or implements is
/// read from the relationships that start at it, and what depends on, uses,
/// calls or implements it from those that end at it.  Whatever rows are read
/// (`out` those that start at the entity, `inc` those that end at it), the
/// collection kept is the rows of the asked type in the direction read.
pub proof fn law_queries_read_the_direction_they_answer_from(
    kind: RelationKind,
    out_rows: Seq<RelationshipRow>,
    out: EntityRelationships,
    inc_rows: Seq<RelationshipRow>,
    inc: EntityRelationships,
)
    requires
        kind != RelationKind::AllRelationships,
        classified(out, out_rows, Direction::Outgoing),
        classified(inc, inc_rows, Direction::Incoming),
    ensures
        source_of(kind) == RelationshipSource::Outgoing || source_of(kind) == RelationshipSource::Incoming,
        source_of(kind) == RelationshipSource::Outgoing ==> related_of_rows(
            asked_collection(kind, out),
            rows_of_type(out_rows, asked_type(kind)),
        ),
        source_of(kind) == RelationshipSource::Incoming ==> related_of_rows(
            asked_collection(kind, inc),
            rows_of_type(inc_rows, asked_type(kind)),
        ),
{
}

/// The answer to a query of kind `kind` from the relationships read for it:
/// only the collection that the query asks for (all of them for
/// `AllRelationships`), the others empty.
pub fn keep_asked(kind: RelationKind, rels: EntityRelationships) -> (r: EntityRelationships)
    ensures
        asked_collection(kind, r) == asked_collection(kind, rels),
        r.dependencies@ == if kind == RelationKind::Dependencies || kind
            == RelationKind::AllRelationships {
            rels.dependencies@
        } else {
            Seq::empty()
        },
        r.dependents@ == if kind == RelationKind::Dependents || kind == RelationKind::AllRelationships {
            rels.dependents@
        } else {
            Seq::empty()
        },
        r.uses@ == if kind == RelationKind::Uses || kind == RelationKind::AllRelationships {
            rels.uses@
        } else {
            Seq::empty()
        },
        r.used_by@ == if kind == RelationKind::UsedBy || kind == RelationKind::AllRelationships {
            rels.used_by@
        } else {
            Seq::empty()
        },
        r.calls@ == if kind == RelationKind::Calls || kind == RelationKind::AllRelationships {
            rels.calls@
        } else {
            Seq::empty()
        },
        r.called_by@ == if kind == RelationKind::CalledBy || kind == RelationKind::AllRelationships {
            rels.called_by@
        } else {
            Seq::empty()
        },
        r.implements@ == if kind == RelationKind::Implements || kind
            == RelationKind::AllRelationships {
            rels.implements@
        } else {
            Seq::empty()
        },
        r.implemented_by@ == if kind == RelationKind::ImplementedBy || kind
            == RelationKind::AllRelationships {
            rels.implemented_by@
        } else {
            Seq::empty()
        },
{
    let mut r = EntityRelationships::empty();
    match kind {
        RelationKind::Dependencies => {
            r.dependencies = rels.dependencies;
        },
        RelationKind::Dependents => {
            r.dependents = rels.dependents;
        },
        RelationKind::Uses => {
            r.uses = rels.uses;
        },
        RelationKind::UsedBy => {
            r.used_by = rels.used_by;
        },
        RelationKind::Calls => {
            r.calls = rels.calls;
        },
        RelationKind::CalledBy => {
            r.called_by = rels.called_by;
        },
        RelationKind::Implements => {
            r.implements = rels.implements;
        },
        RelationKind::ImplementedBy => {
            r.implemented_by = rels.implemented_by;
        },
        RelationKind::AllRelationships => {
            r = rels;
        },
    }
    r
}

/// The result of a relationship query.
#[derive(Debug, Clone)]
pub enum RelationshipQueryResult {
    /// The entity matched, and its relationships that the query asks for
    Success { entity: CodeEntity, relationships: Box<EntityRelationships> },
    /// Several entities match about equally well: the query must be made
    /// more precise
    Ambiguous { query: String, candidates: Vec<CodeEntity> },
}

/// The error for a query whose entity name matches no entity.
pub open spec fn no_match_message(entity_name: Seq<char>) -> Seq<char> {
    "No entities found matching '"@ + entity_name
        + "'. Try a different name or check if the repository is indexed."@
}

/// A query about `entity_name` found no entity.
pub fn no_match_error(entity_name: &str) -> (e: KgError)
    ensures
        e matches KgError::NotFound(m) && m@ == no_match_message(entity_name@),
{
    KgError::NotFound(
        cat3(
            "No entities found matching '",
            entity_name,
            "'. Try a different name or check if the repository is indexed.",
        ),
    )
}

/// The successful answer to a query of kind `kind` about `entity`, from the
/// relationships read for it (see [`keep_asked`]).
pub fn answer_query(kind: RelationKind, entity: CodeEntity, rels: EntityRelationships) -> (res:
    RelationshipQueryResult)
    ensures
        res matches RelationshipQueryResult::Success { entity: e, relationships: r } && e == entity
            && r.dependencies@ == (if kind == RelationKind::Dependencies || kind
            == RelationKind::AllRelationships {
            rels.dependencies@
        } else {
            Seq::empty()
        }) && r.dependents@ == (if kind == RelationKind::Dependents || kind
            == RelationKind::AllRelationships {
            rels.dependents@
        } else {
            Seq::empty()
        }) && r.uses@ == (if kind == RelationKind::Uses || kind == RelationKind::AllRelationships {
            rels.uses@
        } else {
            Seq::empty()
        }) && r.used_by@ == (if kind == RelationKind::UsedBy || kind
            == RelationKind::AllRelationships {
            rels.used_by@
        } else {
            Seq::empty()
        }) && r.calls@ == (if kind == RelationKind::Calls || kind == RelationKind::AllRelationships {
            rels.calls@
        } else {
            Seq::empty()
        }) && r.called_by@ == (if kind == RelationKind::CalledBy || kind
            == RelationKind::AllRelationships {
            rels.called_by@
        } else {
            Seq::empty()
        }) && r.implements@ == (if kind == RelationKind::Implements || kind
            == RelationKind::AllRelationships {
            rels.implements@
        } else {
            Seq::empty()
        }) && r.implemented_by@ == (if kind == RelationKind::ImplementedBy || kind
            == RelationKind::AllRelationships {
            rels.implemented_by@
        } else {
            Seq::empty()
        }),
{
    let r = keep_asked(kind, rels);
    RelationshipQueryResult::Success { entity, relationships: Box::new(r) }
}

} // verus!
