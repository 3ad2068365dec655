//! The data model of the knowledge graph: repositories, components, code
//! entities and the relationships between them.
//!
//! Timestamps are seconds since the Unix epoch; relationship metadata is
//! carried as JSON text.
use vstd::prelude::*;
use crate::kg::{KgError, KgResult};
use crate::text::{cat, str_eq};

verus! {

/// Type of component.
#[derive(Debug, Clone, Copy, PartialEq, Eq, Hash)]
pub enum ComponentType {
    Module,
    Package,
    Directory,
}

impl ComponentType {
    /// The lowercase name stored in the graph tables.
    pub open spec fn label(self) -> Seq<char> {
        match self {
            ComponentType::Module => "module"@,
            ComponentType::Package => "package"@,
            ComponentType::Directory => "directory"@,
        }
    }

    /// The lowercase name stored in the graph tables.
    pub fn name(&self) -> (res: &'static str)
        ensures
            res@ == self.label(),
    {
        match self {
            ComponentType::Module => "module",
            ComponentType::Package => "package",
            ComponentType::Directory => "directory",
        }
    }
}

/// Type of code entity.
#[derive(Debug, Clone, Copy, PartialEq, Eq, Hash)]
pub enum EntityType {
    Function,
    Class,
    Struct,
    Enum,
    Interface,
    Trait,
    Method,
    Constant,
    Variable,
}

impl EntityType {
    /// The lowercase name stored in the graph tables.
    pub open spec fn label(self) -> Seq<char> {
        match self {
            EntityType::Function => "function"@,
            EntityType::Class => "class"@,
            EntityType::Struct => "struct"@,
            EntityType::Enum => "enum"@,
            EntityType::Interface => "interface"@,
            EntityType::Trait => "trait"@,
            EntityType::Method => "method"@,
            EntityType::Constant => "constant"@,
            EntityType::Variable => "variable"@,
        }
    }

    /// The entity type whose stored name is `s`.
    pub open spec fn from_label(s: Seq<char>) -> Option<EntityType> {
        if s == "function"@ {
            Some(EntityType::Function)
        } else if s == "class"@ {
            Some(EntityType::Class)
        } else if s == "struct"@ {
            Some(EntityType::Struct)
        } else if s == "enum"@ {
            Some(EntityType::Enum)
        } else if s == "interface"@ {
            Some(EntityType::Interface)
        } else if s == "trait"@ {
            Some(EntityType::Trait)
        } else if s == "method"@ {
            Some(EntityType::Method)
        } else if s == "constant"@ {
            Some(EntityType::Constant)
        } else if s == "variable"@ {
            Some(EntityType::Variable)
        } else {
            None
        }
    }

    /// The lowercase name stored in the graph tables.
    pub fn name(&self) -> (res: &'static str)
        ensures
            res@ == self.label(),
    {
        match self {
            EntityType::Function => "function",
            EntityType::Class => "class",
            EntityType::Struct => "struct",
            EntityType::Enum => "enum",
            EntityType::Interface => "interface",
            EntityType::Trait => "trait",
            EntityType::Method => "method",
            EntityType::Constant => "constant",
            EntityType::Variable => "variable",
        }
    }

    /// The entity type whose stored name is `s`, if any.
    pub fn parse(s: &str) -> (res: Option<EntityType>)
        ensures
            res == EntityType::from_label(s@),
    {
        if str_eq(s, "function") {
            Some(EntityType::Function)
        } else if str_eq(s, "class") {
            Some(EntityType::Class)
        } else if str_eq(s, "struct") {
            Some(EntityType::Struct)
        } else if str_eq(s, "enum") {
            Some(EntityType::Enum)
        } else if str_eq(s, "interface") {
            Some(EntityType::Interface)
        } else if str_eq(s, "trait") {
            Some(EntityType::Trait)
        } else if str_eq(s, "method") {
            Some(EntityType::Method)
        } else if str_eq(s, "constant") {
            Some(EntityType::Constant)
        } else if str_eq(s, "variable") {
            Some(EntityType::Variable)
        } else {
            None
        }
    }
}

/// Visibility level.
#[derive(Debug, Clone, Copy, PartialEq, Eq)]
pub enum Visibility {
    Public,
    Private,
    Protected,
    Internal,
}

impl Visibility {
    /// The lowercase name stored in the graph tables.
    pub open spec fn label(self) -> Seq<char> {
        match self {
            Visibility::Public => "public"@,
            Visibility::Private => "private"@,
            Visibility::Protected => "protected"@,
            Visibility::Internal => "internal"@,
        }
    }

    /// The visibility whose stored name is `s`.
    pub open spec fn from_label(s: Seq<char>) -> Option<Visibility> {
        if s == "public"@ {
            Some(Visibility::Public)
        } else if s == "private"@ {
            Some(Visibility::Private)
        } else if s == "protected"@ {
            Some(Visibility::Protected)
        } else if s == "internal"@ {
            Some(Visibility::Internal)
        } else {
            None
        }
    }

    /// The lowercase name stored in the graph tables.
    pub fn name(&self) -> (res: &'static str)
        ensures
            res@ == self.label(),
    {
        match self {
            Visibility::Public => "public",
            Visibility::Private => "private",
            Visibility::Protected => "protected",
            Visibility::Internal => "internal",
        }
    }

    /// The visibility whose stored name is `s`, if any.
    pub fn parse(s: &str) -> (res: Option<Visibility>)
        ensures
            res == Visibility::from_label(s@),
    {
        if str_eq(s, "public") {
            Some(Visibility::Public)
        } else if str_eq(s, "private") {
            Some(Visibility::Private)
        } else if str_eq(s, "protected") {
            Some(Visibility::Protected)
        } else if str_eq(s, "internal") {
            Some(Visibility::Internal)
        } else {
            None
        }
    }
}

/// Metadata associated with an entity.
#[derive(Debug, Clone)]
pub struct EntityMetadata {
    pub signature: Option<String>,
    pub doc_comment: Option<String>,
    pub language: String,
}

/// Type of dependency relationship.
#[derive(Debug, Clone, Copy, PartialEq, Eq)]
pub enum DependencyType {
    Import,
    Inheritance,
    Composition,
    Association,
}

impl DependencyType {
    /// The lowercase name stored with a dependency.
    pub open spec fn label(self) -> Seq<char> {
        match self {
            DependencyType::Import => "import"@,
            DependencyType::Inheritance => "inheritance"@,
            DependencyType::Composition => "composition"@,
            DependencyType::Association => "association"@,
        }
    }

    /// The lowercase name stored with a dependency.
    pub fn name(&self) -> (res: &'static str)
        ensures
            res@ == self.label(),
    {
        match self {
            DependencyType::Import => "import",
            DependencyType::Inheritance => "inheritance",
            DependencyType::Composition => "composition",
            DependencyType::Association => "association",
        }
    }
}

/// A code repository in the knowledge graph.
#[derive(Debug, Clone)]
pub struct Repository {
    pub id: i32,
    pub path: String,
    pub name: String,
    pub summary: Option<String>,
    pub created_at: i64,
    pub updated_at: i64,
}

/// A logical component (module, package, directory) of a repository.
#[derive(Debug, Clone)]
pub struct Component {
    pub id: i32,
    pub repository_id: i32,
    pub name: String,
    pub path: String,
    pub component_type: ComponentType,
    pub summary: Option<String>,
    pub created_at: i64,
    pub updated_at: i64,
}

/// A code entity (function, class, ...).
#[derive(Debug, Clone)]
pub struct CodeEntity {
    pub id: i32,
    pub component_id: i32,
    pub name: String,
    pub entity_type: EntityType,
    pub file_path: String,
    pub line_start: u32,
    pub line_end: u32,
    pub visibility: Visibility,
    pub metadata: EntityMetadata,
    pub summary: Option<String>,
    pub created_at: i64,
    pub updated_at: i64,
}

/// An entity related to another, with the relationship's type and its
/// metadata (JSON text).
#[derive(Debug, Clone)]
pub struct RelatedEntity {
    pub entity: CodeEntity,
    /// `depends_on`, `uses`, `calls`, `implements`, ...
    pub relationship_type: String,
    pub metadata: String,
}

/// The relationships of an entity, by kind and direction.
#[derive(Debug, Clone)]
pub struct EntityRelationships {
    /// Entities this depends on
    pub dependencies: Vec<RelatedEntity>,
    /// Entities that depend on this
    pub dependents: Vec<RelatedEntity>,
    /// Entities this uses
    pub uses: Vec<RelatedEntity>,
    /// Entities that use this
    pub used_by: Vec<RelatedEntity>,
    /// Functions this calls
    pub calls: Vec<RelatedEntity>,
    /// Functions that call this
    pub called_by: Vec<RelatedEntity>,
    /// Interfaces and traits this implements
    pub implements: Vec<RelatedEntity>,
    /// Entities that implement this
    pub implemented_by: Vec<RelatedEntity>,
}

impl EntityRelationships {
    /// No relationship of any kind.
    pub open spec fn is_empty(&self) -> bool {
        &&& self.dependencies@.len() == 0
        &&& self.dependents@.len() == 0
        &&& self.uses@.len() == 0
        &&& self.used_by@.len() == 0
        &&& self.calls@.len() == 0
        &&& self.called_by@.len() == 0
        &&& self.implements@.len() == 0
        &&& self.implemented_by@.len() == 0
    }

    /// No relationships.
    pub fn empty() -> (r: EntityRelationships)
        ensures
            r.is_empty(),
    {
        EntityRelationships {
            dependencies: Vec::new(),
            dependents: Vec::new(),
            uses: Vec::new(),
            used_by: Vec::new(),
            calls: Vec::new(),
            called_by: Vec::new(),
            implements: Vec::new(),
            implemented_by: Vec::new(),
        }
    }
}

impl Default for EntityRelationships {
    fn default() -> (r: EntityRelationships)
        ensures
            r.is_empty(),
    {
        EntityRelationships::empty()
    }
}

} // verus!
