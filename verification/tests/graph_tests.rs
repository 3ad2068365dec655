use cudgel::database::Reference;
use cudgel::graph::{GraphAction, GraphEvent, GraphWalk, SymbolInfo};

fn info(name: &str) -> Option<SymbolInfo> {
    Some(SymbolInfo {
        name: name.to_string(),
        kind: "function".to_string(),
        path: "src/lib.rs".to_string(),
        language: Some("rust".to_string()),
        start_line: 1,
    })
}

fn reference(from: i32, to: i32) -> Reference {
    Reference { id: 0, from_symbol_id: from, to_symbol_id: to, reference_type: "call".to_string(), file_id: 1, line: 3, column: 4 }
}

#[test]
fn a_walk_follows_references_depth_first() {
    let (mut w, a) = GraphWalk::begin("main".to_string(), Some(1), 2);
    assert_eq!(a, GraphAction::ReadSymbol(1));
    assert_eq!(w.step(GraphEvent::Symbol(info("main"))), GraphAction::ReadReferences(1));
    assert_eq!(w.step(GraphEvent::References(vec![reference(1, 2), reference(1, 1)])), GraphAction::ReadSymbol(2));
    assert_eq!(w.step(GraphEvent::Symbol(info("helper"))), GraphAction::ReadSymbol(2));
    assert_eq!(w.step(GraphEvent::Symbol(info("helper"))), GraphAction::ReadReferences(2));
    assert_eq!(w.step(GraphEvent::References(vec![reference(2, 3)])), GraphAction::ReadSymbol(3));
    assert_eq!(w.step(GraphEvent::Symbol(info("leaf"))), GraphAction::ReadSymbol(1));
    assert_eq!(w.step(GraphEvent::Symbol(info("main"))), GraphAction::Done);
    let g = w.finish();
    assert_eq!(g.root, "main");
    let ids: Vec<i32> = g.nodes.iter().map(|n| n.id).collect();
    assert_eq!(ids, vec![1, 2, 3]);
    let edges: Vec<(i32, i32)> = g.edges.iter().map(|e| (e.from, e.to)).collect();
    assert_eq!(edges, vec![(1, 2), (2, 3), (1, 1)]);
    assert_eq!(g.edges[0].line, Some(3));
}

#[test]
fn a_missing_root_gives_an_empty_graph() {
    let (w, a) = GraphWalk::begin("nothing".to_string(), None, 3);
    assert_eq!(a, GraphAction::Done);
    let g = w.finish();
    assert!(g.nodes.is_empty() && g.edges.is_empty());
    assert_eq!(g.root, "nothing");
}

#[test]
fn an_answer_to_the_wrong_read_ends_the_walk() {
    let (mut w, a) = GraphWalk::begin("main".to_string(), Some(7), 3);
    assert_eq!(a, GraphAction::ReadSymbol(7));
    assert_eq!(w.step(GraphEvent::References(vec![reference(7, 8)])), GraphAction::Done);
    assert_eq!(w.step(GraphEvent::Symbol(info("main"))), GraphAction::Done);
    let g = w.finish();
    assert!(g.nodes.is_empty() && g.edges.is_empty());
}

#[test]
fn a_missing_symbol_adds_no_node() {
    let (mut w, _) = GraphWalk::begin("main".to_string(), Some(1), 1);
    assert_eq!(w.step(GraphEvent::Symbol(None)), GraphAction::ReadReferences(1));
    assert_eq!(w.step(GraphEvent::References(vec![])), GraphAction::Done);
    let g = w.finish();
    assert!(g.nodes.is_empty());
}

#[test]
fn a_symbol_with_no_references_lets_the_walk_go_on_with_the_others() {
    let (mut w, _) = GraphWalk::begin("main".to_string(), Some(1), 3);
    assert_eq!(w.step(GraphEvent::Symbol(info("main"))), GraphAction::ReadReferences(1));
    assert_eq!(w.step(GraphEvent::References(vec![reference(1, 2), reference(1, 3)])), GraphAction::ReadSymbol(2));
    assert_eq!(w.step(GraphEvent::Symbol(info("a"))), GraphAction::ReadSymbol(2));
    assert_eq!(w.step(GraphEvent::Symbol(info("a"))), GraphAction::ReadReferences(2));
    assert_eq!(w.step(GraphEvent::References(vec![])), GraphAction::ReadSymbol(3));
    assert_eq!(w.step(GraphEvent::Symbol(info("b"))), GraphAction::ReadSymbol(3));
    assert_eq!(w.step(GraphEvent::Symbol(info("b"))), GraphAction::ReadReferences(3));
    assert_eq!(w.step(GraphEvent::References(vec![])), GraphAction::Done);
    let g = w.finish();
    let names: Vec<&str> = g.nodes.iter().map(|n| n.name.as_str()).collect();
    assert_eq!(names, vec!["main", "a", "b"]);
    assert_eq!(g.nodes[1].file, "src/lib.rs");
    assert_eq!(g.nodes[1].language.as_deref(), Some("rust"));
    assert_eq!(g.edges.len(), 2);
}

#[test]
fn a_target_visited_already_is_not_visited_again() {
    let (mut w, _) = GraphWalk::begin("main".to_string(), Some(1), 3);
    assert_eq!(w.step(GraphEvent::Symbol(info("main"))), GraphAction::ReadReferences(1));
    assert_eq!(w.step(GraphEvent::References(vec![reference(1, 1), reference(1, 4)])), GraphAction::ReadSymbol(1));
    assert_eq!(w.step(GraphEvent::Symbol(info("main"))), GraphAction::ReadSymbol(4));
    assert_eq!(w.step(GraphEvent::Symbol(None)), GraphAction::ReadSymbol(4));
    let g_nodes_before = 1;
    assert_eq!(w.step(GraphEvent::Symbol(None)), GraphAction::ReadReferences(4));
    assert_eq!(w.step(GraphEvent::References(vec![])), GraphAction::Done);
    let g = w.finish();
    assert_eq!(g.nodes.len(), g_nodes_before);
    assert_eq!(g.edges.len(), 2);
}
