//! Graphs of references between symbols: their nodes and edges, and the
//! depth-first walk that builds one from a root symbol.  The walk is a
//! machine: it says what to read next (a symbol, its references), and is
//! told what was read.
use vstd::prelude::*;
use crate::database::Reference;
use crate::text::str_eq;

verus! {

/// A symbol in a reference graph.
#[derive(Debug, Clone)]
pub struct GraphNode {
    /// Symbol id
    pub id: i32,
    pub name: String,
    /// `function`, `class`, ...
    pub kind: String,
    /// Source file path
    pub file: String,
    pub language: Option<String>,
    /// Line (counted from 1)
    pub line: i32,
}

/// A reference between two symbols.
#[derive(Debug, Clone)]
pub struct GraphEdge {
    pub from: i32,
    pub to: i32,
    /// `call`, `import`, `extends`, ...
    pub edge_type: String,
    pub line: Option<i32>,
    pub column: Option<i32>,
}

/// A reference graph from a root symbol.
#[derive(Debug, Clone)]
pub struct Graph {
    pub nodes: Vec<GraphNode>,
    pub edges: Vec<GraphEdge>,
    /// The name of the root symbol
    pub root: String,
}

/// What is read of a symbol.
#[derive(Debug, Clone)]
pub struct SymbolInfo {
    pub name: String,
    pub kind: String,
    pub path: String,
    pub language: Option<String>,
    pub start_line: i32,
}

/// What the walk needs read next.
#[derive(Debug, Clone, PartialEq, Eq)]
pub enum GraphAction {
    /// The symbol with this id
    ReadSymbol(i32),
    /// The references from the symbol with this id
    ReadReferences(i32),
    /// The walk is over
    Done,
}

/// What was read.
#[derive(Debug, Clone)]
pub enum GraphEvent {
    Symbol(Option<SymbolInfo>),
    References(Vec<Reference>),
}

/// The references of a visited symbol still to follow.
#[derive(Debug, Clone)]
struct Frame {
    depth: usize,
    refs: Vec<Reference>,
    next: usize,
}

/// What the walk waits for.
#[derive(Debug, Clone, Copy, PartialEq, Eq, Structural)]
enum Waiting {
    /// The visited symbol with this id, at this depth
    Visited(i32, usize),
    /// The references of the visited symbol with this id, at this depth
    Refs(i32, usize),
    /// The target of the last edge, to visit next at this depth
    Target(i32, usize),
    Nothing,
}

/// A depth-first walk of the references from a root symbol, `depth` hops
/// deep.
pub struct GraphWalk {
    nodes: Vec<GraphNode>,
    edges: Vec<GraphEdge>,
    visited: Vec<i32>,
    frames: Vec<Frame>,
    waiting: Waiting,
    root: String,
}

/// No two nodes have the same id.
pub open spec fn distinct_ids(nodes: Seq<GraphNode>) -> bool {
    forall|i: int, j: int| 0 <= i < j < nodes.len() ==> #[trigger] nodes[i].id != #[trigger] nodes[j].id
}

/// The edge that a reference becomes.
pub open spec fn edge_of(r: Reference) -> GraphEdge {
    GraphEdge {
        from: r.from_symbol_id,
        to: r.to_symbol_id,
        edge_type: r.reference_type,
        line: Some(r.line),
        column: Some(r.column),
    }
}

/// Whether a node with id `id` is among `nodes`.
pub open spec fn has_node(nodes: Seq<GraphNode>, id: i32) -> bool {
    exists|i: int| 0 <= i < nodes.len() && #[trigger] nodes[i].id == id
}

/// The node that what was read of symbol `id` becomes.
pub open spec fn node_of(id: i32, info: SymbolInfo) -> GraphNode {
    GraphNode {
        id,
        name: info.name,
        kind: info.kind,
        file: info.path,
        language: info.language,
        line: info.start_line,
    }
}

/// `nodes` with a node added for `id` from what was read of it, unless
/// nothing was read or `nodes` has one for `id` already.
pub open spec fn with_node(nodes: Seq<GraphNode>, id: i32, info: Option<SymbolInfo>) -> Seq<GraphNode> {
    match info {
        Some(i) => if has_node(nodes, id) {
            nodes
        } else {
            nodes.push(node_of(id, i))
        },
        None => nodes,
    }
}

/// A symbol read for an id with no node yet adds one node, at the end, that
/// carries what was read of it: the id asked for, and the symbol's name,
/// kind, file path, language and first line; nothing else changes.  A symbol
/// that was not found, or whose id has a node already, adds none.
pub proof fn law_new_nodes_carry_what_was_read(nodes: Seq<GraphNode>, id: i32, info: Option<SymbolInfo>)
    ensures
        info is None || has_node(nodes, id) ==> with_node(nodes, id, info) == nodes,
        info is Some && !has_node(nodes, id) ==> ({
            let s = info.unwrap();
            let r = with_node(nodes, id, info);
            &&& r.len() == nodes.len() + 1
            &&& r.drop_last() == nodes
            &&& r.last().id == id
            &&& r.last().name == s.name
            &&& r.last().kind == s.kind
            &&& r.last().file == s.path
            &&& r.last().language == s.language
            &&& r.last().line == s.start_line
        }),
{
    if info is Some && !has_node(nodes, id) {
        assert(with_node(nodes, id, info).drop_last() =~= nodes);
    }
}

/// References, each with the depth of the symbol they are from.
pub open spec fn at_depth(refs: Seq<Reference>, depth: usize) -> Seq<(Reference, usize)> {
    refs.map_values(|r: Reference| (r, depth))
}

/// The references of the frames still to follow, those of the newest frame
/// first.
spec fn pending_of(frames: Seq<Frame>) -> Seq<(Reference, usize)>
    decreases frames.len(),
{
    if frames.len() == 0 {
        Seq::empty()
    } else {
        at_depth(frames.last().refs@.skip(frames.last().next as int), frames.last().depth)
            + pending_of(frames.drop_last())
    }
}

impl GraphWalk {
    /// The nodes found so far.
    pub closed spec fn node_list(&self) -> Seq<GraphNode> {
        self.nodes@
    }

    /// The edges found so far.
    pub closed spec fn edge_list(&self) -> Seq<GraphEdge> {
        self.edges@
    }

    /// The name of the root symbol.
    pub closed spec fn root_name(&self) -> Seq<char> {
        self.root@
    }

    /// The references of the symbols visited that are still to follow, the
    /// next one first, each with the depth of the symbol it is from.
    pub closed spec fn pending(&self) -> Seq<(Reference, usize)> {
        pending_of(self.frames@)
    }

    /// Nodes have distinct ids, symbols are visited once, and every frame has
    /// a place within its references.
    #[verifier::type_invariant]
    spec fn wf(&self) -> bool {
        &&& distinct_ids(self.nodes@)
        &&& self.visited@.no_duplicates()
        &&& forall|k: int|
            0 <= k < self.frames@.len() ==> #[trigger] self.frames@[k].next <= self.frames@[k].refs@.len()
                && self.frames@[k].depth > 0
        &&& (self.waiting matches Waiting::Target(_, d) ==> d > 0)
        &&& (self.waiting matches Waiting::Visited(_, d) ==> d > 0)
        &&& (self.waiting matches Waiting::Refs(_, d) ==> d > 0)
    }

    /// The symbols visited so far, in the order of their visits.
    pub closed spec fn visited_list(&self) -> Seq<i32> {
        self.visited@
    }

    /// The walk waits for a symbol it is visiting (not for the target of an
    /// edge).
    pub closed spec fn visiting(&self) -> bool {
        self.waiting is Visited
    }

    /// How many hops deep the walk may still go from the symbol it waits
    /// for: its own depth when visiting it or reading its references, the
    /// depth of the edge's source for a target (0 once the walk is over).
    pub closed spec fn wait_depth(&self) -> int {
        match self.waiting {
            Waiting::Visited(_, d) => d as int,
            Waiting::Refs(_, d) => d as int,
            Waiting::Target(_, d) => d as int,
            Waiting::Nothing => 0,
        }
    }

    /// The read whose answer the walk waits for (`Done` once it is over).
    pub closed spec fn awaits(&self) -> GraphAction {
        match self.waiting {
            Waiting::Visited(id, _) => GraphAction::ReadSymbol(id),
            Waiting::Target(id, _) => GraphAction::ReadSymbol(id),
            Waiting::Refs(id, _) => GraphAction::ReadReferences(id),
            Waiting::Nothing => GraphAction::Done,
        }
    }
}

/// How the walk `w` goes on, with the edges `edges` found before, from the
/// references still to follow `q`: it follows the first, which becomes an
/// edge, and reads its target next, to visit it one hop less deep than the
/// symbol the reference is from; or, with none left, the walk is over.
pub open spec fn goes_on(edges: Seq<GraphEdge>, q: Seq<(Reference, usize)>, w: GraphWalk, a: GraphAction) -> bool {
    if q.len() == 0 {
        a is Done && w.edge_list() == edges && w.pending().len() == 0
    } else {
        a == GraphAction::ReadSymbol(q[0].0.to_symbol_id) && w.edge_list() == edges.push(edge_of(q[0].0))
            && w.pending() == q.drop_first() && !w.visiting() && w.wait_depth() == q[0].1
    }
}

impl GraphWalk {
    /// Adds a node for `id` unless there is one.
    fn add_node(&mut self, id: i32, info: Option<SymbolInfo>)
        requires
            distinct_ids(old(self).nodes@),
        ensures
            distinct_ids(final(self).nodes@),
            final(self).edges == old(self).edges,
            final(self).visited == old(self).visited,
            final(self).frames == old(self).frames,
            final(self).waiting == old(self).waiting,
            final(self).root == old(self).root,
            final(self).nodes@ == with_node(old(self).nodes@, id, info),
    {
        proof {
            use_type_invariant(&*self);
        }
        let info = match info {
            None => return,
            Some(i) => i,
        };
        let mut k: usize = 0;
        while k < self.nodes.len()
            invariant
                k <= self.nodes@.len(),
                *self == *old(self),
                distinct_ids(self.nodes@),
                forall|j: int| 0 <= j < k ==> #[trigger] self.nodes@[j].id != id,
            decreases self.nodes@.len() - k,
        {
            if self.nodes[k].id == id {
                assert(self.nodes@[k as int].id == id);
                assert(has_node(self.nodes@, id));
                return;
            }
            k = k + 1;
        }
        let ghost before = self.nodes@;
        assert(!has_node(before, id));
        let node = GraphNode {
            id,
            name: info.name,
            kind: info.kind,
            file: info.path,
            language: info.language,
            line: info.start_line,
        };
        assert(distinct_ids(before.push(node))) by {
            let after = before.push(node);
            assert forall|i: int, j: int| 0 <= i < j < after.len() implies #[trigger] after[i].id
                != #[trigger] after[j].id by {
                if j == before.len() {
                    assert(after[i] == before[i]);
                } else {
                    assert(after[i] == before[i]);
                    assert(after[j] == before[j]);
                }
            }
        }
        let mut nodes = Vec::new();
        std::mem::swap(&mut nodes, &mut self.nodes);
        nodes.push(node);
        self.nodes = nodes;
    }

    fn is_visited(&self, id: i32) -> (b: bool)
        ensures
            b == self.visited@.contains(id),
    {
        let mut k: usize = 0;
        while k < self.visited.len()
            invariant
                k <= self.visited@.len(),
                forall|j: int| 0 <= j < k ==> self.visited@[j] != id,
            decreases self.visited@.len() - k,
        {
            if self.visited[k] == id {
                return true;
            }
            k = k + 1;
        }
        false
    }

    /// Starts visiting `id` at `depth`, or, when that is not to be done (no
    /// depth left, or visited already), goes on with the references left.
    #[verifier::spinoff_prover]
    fn visit(&mut self, id: i32, depth: usize) -> (a: GraphAction)
        ensures
            final(self).nodes == old(self).nodes,
            final(self).root == old(self).root,
            depth > 0 && !old(self).visited@.contains(id) ==> a == GraphAction::ReadSymbol(id)
                && final(self).edges == old(self).edges && final(self).frames == old(self).frames
                && final(self).visited@ == old(self).visited@.push(id) && final(self).waiting
                == Waiting::Visited(id, depth),
            depth == 0 || old(self).visited@.contains(id) ==> final(self).visited == old(self).visited
                && goes_on(old(self).edges@, pending_of(old(self).frames@), *final(self), a),
            final(self).awaits() == a,
    {
        proof {
            use_type_invariant(&*self);
        }
        if depth == 0 || self.is_visited(id) {
            return self.resume();
        }
        let ghost before = self.visited@;
        assert(before.push(id).no_duplicates()) by {
            let after = before.push(id);
            assert forall|i: int, j: int|
                0 <= i < after.len() && 0 <= j < after.len() && i != j implies after[i] != after[j] by {
                if i < before.len() && j < before.len() {
                    assert(after[i] == before[i]);
                    assert(after[j] == before[j]);
                } else if i < before.len() {
                    assert(after[i] == before[i]);
                    assert(after[j] == id);
                    assert(before.contains(before[i]));
                } else {
                    assert(after[i] == id);
                    assert(after[j] == before[j]);
                    assert(before.contains(before[j]));
                }
            }
        }
        let mut visited = Vec::new();
        std::mem::swap(&mut visited, &mut self.visited);
        visited.push(id);
        self.visited = visited;
        self.waiting = Waiting::Visited(id, depth);
        GraphAction::ReadSymbol(id)
    }

    /// Follows the next reference left, dropping the frames whose references
    /// are all followed; the walk is over when none is left.
    #[verifier::spinoff_prover]
    fn resume(&mut self) -> (a: GraphAction)
        ensures
            final(self).nodes == old(self).nodes,
            final(self).visited == old(self).visited,
            final(self).root == old(self).root,
            final(self).awaits() == a,
            goes_on(old(self).edges@, pending_of(old(self).frames@), *final(self), a),
    {
        loop
            invariant
                self.nodes == old(self).nodes,
                self.edges == old(self).edges,
                self.visited == old(self).visited,
                self.root == old(self).root,
                pending_of(self.frames@) == pending_of(old(self).frames@),
            decreases self.frames@.len(),
        {
            proof {
                use_type_invariant(&*self);
            }
            if self.frames.len() == 0 {
                self.waiting = Waiting::Nothing;
                assert(pending_of(self.frames@).len() == 0);
                return GraphAction::Done;
            }
            let top = self.frames.len() - 1;
            let next = self.frames[top].next;
            let ghost fs = self.frames@;
            let ghost f = fs[top as int];
            assert(f.next <= f.refs@.len() && f.depth > 0);
            if next < self.frames[top].refs.len() {
                let r = self.frames[top].refs[next].copy();
                let mut frames = Vec::new();
                std::mem::swap(&mut frames, &mut self.frames);
                frames[top].next = next + 1;
                assert(forall|k: int| 0 <= k < frames@.len() && k != top ==> frames@[k] == fs[k]);
                assert(frames@[top as int].next <= frames@[top as int].refs@.len());
                self.frames = frames;
                let depth = self.frames[top].depth;
                proof {
                    let m0 = at_depth(f.refs@.skip(next as int), f.depth);
                    let m1 = at_depth(f.refs@.skip(next + 1), f.depth);
                    assert(self.frames@.drop_last() =~= fs.drop_last());
                    assert(self.frames@.last().refs@ == f.refs@);
                    assert(m0[0] == (r, depth));
                    assert(m0.drop_first() =~= m1);
                    assert(pending_of(fs) == m0 + pending_of(fs.drop_last()));
                    assert(pending_of(self.frames@) == m1 + pending_of(fs.drop_last()));
                    assert((m0 + pending_of(fs.drop_last())).drop_first() =~= m1 + pending_of(fs.drop_last()));
                }
                let mut edges = Vec::new();
                std::mem::swap(&mut edges, &mut self.edges);
                edges.push(GraphEdge {
                    from: r.from_symbol_id,
                    to: r.to_symbol_id,
                    edge_type: r.reference_type,
                    line: Some(r.line),
                    column: Some(r.column),
                });
                self.edges = edges;
                self.waiting = Waiting::Target(r.to_symbol_id, depth);
                return GraphAction::ReadSymbol(r.to_symbol_id);
            }
            let mut frames = Vec::new();
            std::mem::swap(&mut frames, &mut self.frames);
            frames.pop();
            self.frames = frames;
            proof {
                assert(self.frames@ =~= fs.drop_last());
                assert(f.refs@.skip(next as int) =~= Seq::<Reference>::empty());
                assert(at_depth(f.refs@.skip(next as int), f.depth) =~= Seq::empty());
                assert(pending_of(fs) =~= pending_of(fs.drop_last()));
            }
        }
    }
}

impl GraphWalk {
    /// Starts a walk from the root symbol `start` (none when no symbol has
    /// the root's name: the graph is then empty), `depth` hops deep.
    pub fn begin(root: String, start: Option<i32>, depth: usize) -> (res: (GraphWalk, GraphAction))
        ensures
            res.0.root_name() == root@,
            res.0.node_list().len() == 0,
            res.0.edge_list().len() == 0,
            res.0.pending().len() == 0,
            (start is None || depth == 0) ==> res.1 == GraphAction::Done,
            (start is Some && depth > 0) ==> res.1 == GraphAction::ReadSymbol(start.unwrap())
                && res.0.visiting() && res.0.wait_depth() == depth && res.0.visited_list() == seq![
                start.unwrap(),
            ],
            res.0.awaits() == res.1,
    {
        let mut w = GraphWalk {
            nodes: Vec::new(),
            edges: Vec::new(),
            visited: Vec::new(),
            frames: Vec::new(),
            waiting: Waiting::Nothing,
            root,
        };
        assert(pending_of(w.frames@).len() == 0);
        if depth == 0 {
            return (w, GraphAction::Done);
        }
        match start {
            None => (w, GraphAction::Done),
            Some(id) => {
                let a = w.visit(id, depth);
                (w, a)
            },
        }
    }

    /// Moves the walk on with what was read for its last action.  A symbol
    /// read becomes a node (once per id).  The references read of a visited
    /// symbol are followed in order, before those still to follow of the
    /// symbols visited before it: each becomes an edge, and its target is
    /// read, then visited one hop less deep unless it was visited already or
    /// no depth is left.  An event that does not answer the last action ends
    /// the walk.
    #[verifier::spinoff_prover]
    #[verifier::rlimit(40)]
    pub fn step(&mut self, event: GraphEvent) -> (a: GraphAction)
        ensures
            final(self).awaits() == a,
            final(self).root_name() == old(self).root_name(),
            old(self).visited_list().is_prefix_of(final(self).visited_list()),
            old(self).awaits() is Done ==> a is Done && final(self).node_list() == old(self).node_list()
                && final(self).edge_list() == old(self).edge_list(),
            old(self).awaits() is ReadSymbol && event is References ==> a is Done
                && final(self).node_list() == old(self).node_list() && final(self).edge_list() == old(self).edge_list(),
            old(self).awaits() is ReadReferences && event is Symbol ==> a is Done
                && final(self).node_list() == old(self).node_list() && final(self).edge_list() == old(self).edge_list(),
            old(self).awaits() matches GraphAction::ReadSymbol(id) ==> (event matches GraphEvent::Symbol(
                info,
            ) ==> final(self).node_list() == with_node(old(self).node_list(), id, info)),
            old(self).awaits() matches GraphAction::ReadSymbol(id) ==> (old(self).visiting() ==> (
            event is Symbol ==> a == GraphAction::ReadReferences(id) && final(self).wait_depth() == old(self).wait_depth() && final(self).visited_list() == old(self).visited_list() && final(self).edge_list() == old(self).edge_list() && final(self).pending() == old(self).pending())),
            old(self).awaits() matches GraphAction::ReadSymbol(id) ==> (!old(self).visiting() ==> (
            event is Symbol ==> (old(self).wait_depth() > 1 && !old(self).visited_list().contains(id)
                ==> a == GraphAction::ReadSymbol(id) && final(self).visiting() && final(self).wait_depth()
                == old(self).wait_depth() - 1 && final(self).visited_list() == old(self).visited_list().push(id) && final(self).edge_list() == old(self).edge_list() && final(self).pending() == old(self).pending()) && (old(self).wait_depth() <= 1 || old(self).visited_list().contains(id) ==> final(self).visited_list() == old(self).visited_list()
                && goes_on(old(self).edge_list(), old(self).pending(), *final(self), a)))),
            old(self).awaits() is ReadReferences ==> (event matches GraphEvent::References(refs) ==> (
            final(self).node_list() == old(self).node_list() && final(self).visited_list() == old(self).visited_list() && goes_on(
                old(self).edge_list(),
                at_depth(refs@, old(self).wait_depth() as usize) + old(self).pending(),
                *final(self),
                a,
            ))),
    {
        proof {
            use_type_invariant(&*self);
        }
        match (self.waiting, event) {
            (Waiting::Visited(id, depth), GraphEvent::Symbol(info)) => {
                self.add_node(id, info);
                self.waiting = Waiting::Refs(id, depth);
                GraphAction::ReadReferences(id)
            },
            (Waiting::Refs(id, depth), GraphEvent::References(refs)) => {
                let ghost fs = self.frames@;
                let mut frames = Vec::new();
                std::mem::swap(&mut frames, &mut self.frames);
                frames.push(Frame { depth, refs, next: 0 });
                self.frames = frames;
                proof {
                    assert(self.frames@.drop_last() =~= fs);
                    assert(refs@.skip(0) =~= refs@);
                }
                self.resume()
            },
            (Waiting::Target(id, depth), GraphEvent::Symbol(info)) => {
                self.add_node(id, info);
                self.waiting = Waiting::Nothing;
                self.visit(id, depth - 1)
            },
            _ => {
                self.waiting = Waiting::Nothing;
                GraphAction::Done
            },
        }
    }

    /// The graph found, named by its root symbol: its nodes have distinct
    /// ids.
    pub fn finish(self) -> (g: Graph)
        ensures
            g.nodes@ == self.node_list(),
            g.edges@ == self.edge_list(),
            g.root@ == self.root_name(),
            distinct_ids(g.nodes@),
    {
        proof {
            use_type_invariant(&self);
        }
        Graph { nodes: self.nodes, edges: self.edges, root: self.root }
    }
}

} // verus!
