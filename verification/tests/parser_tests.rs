use cudgel::parser::{compute_hash, detect_language, hex_encode, CodeParser};

#[test]
fn test_parser_detect_language() {
    assert_eq!(CodeParser::detect_language("test.py"), Some("python".to_string()));
    assert_eq!(CodeParser::detect_language("test.rs"), Some("rust".to_string()));
    assert_eq!(CodeParser::detect_language("test.js"), Some("javascript".to_string()));
    assert_eq!(CodeParser::detect_language("test.ts"), Some("typescript".to_string()));
    assert_eq!(CodeParser::detect_language("test.go"), Some("go".to_string()));
    assert_eq!(CodeParser::detect_language("test.txt"), None);
}

#[test]
fn detect_language_by_extension() {
    assert_eq!(detect_language("a/b/c.hpp"), Some("cpp".to_string()));
    assert_eq!(detect_language("x.h"), Some("c".to_string()));
    assert_eq!(detect_language("Main.java"), Some("java".to_string()));
    assert_eq!(detect_language(".rs"), None);
    assert_eq!(detect_language("Makefile"), None);
}

#[test]
fn test_parser_parse_python() {
    let mut parser = CodeParser::new();
    let code = r#"
def hello():
    return "world"
"#;

    let result = parser.parse_file("test.py", code);
    assert!(result.is_ok());

    let (ast, lang) = result.unwrap();
    assert_eq!(ast.nodes[0].node_type, "module");
    assert_eq!(lang, "python");
}

#[test]
fn test_parser_extract_symbols_python() {
    let mut parser = CodeParser::new();
    let code = r#"
def hello():
    """A greeting function."""
    return "world"

class Foo:
    def bar(self):
        pass
"#;

    let (ast, _) = parser.parse_file("test.py", code).unwrap();
    let symbols = parser.extract_symbols(&ast, "python");

    assert!(symbols.len() >= 2);
    assert!(symbols.iter().any(|s| s.name.contains("hello")));
    assert!(symbols.iter().any(|s| s.name.contains("Foo")));
    let hello = symbols.iter().find(|s| s.name == "hello").unwrap();
    assert_eq!(hello.kind, "function");
    assert_eq!(hello.signature.as_deref(), Some("def hello():"));
    let foo = symbols.iter().find(|s| s.name == "Foo").unwrap();
    assert_eq!(foo.kind, "class");
}

#[test]
fn test_parser_extract_symbols_rust() {
    let mut parser = CodeParser::new();
    let code = r#"
fn add(a: i32, b: i32) -> i32 {
    a + b
}

struct Point {
    x: f64,
    y: f64,
}
"#;

    let (ast, _) = parser.parse_file("test.rs", code).unwrap();
    let symbols = parser.extract_symbols(&ast, "rust");

    assert!(symbols.len() >= 2);
    assert!(symbols.iter().any(|s| s.name.contains("add")));
    assert!(symbols.iter().any(|s| s.name.contains("Point")));
    let point = symbols.iter().find(|s| s.name == "Point").unwrap();
    assert_eq!(point.kind, "struct");
    assert_eq!(point.start_line, 5);
    assert!(point.docstring.is_none());
}

#[test]
fn test_parser_large_file_handling() {
    let mut parser = CodeParser::new();
    let code = "def function_():\n    pass\n".repeat(1000);
    let result = parser.parse_file("test.py", &code);
    assert!(result.is_ok());
}

#[test]
fn test_parser_syntax_error_handling() {
    let mut parser = CodeParser::new();
    let code = "def incomplete_function(\n";
    let result = parser.parse_file("test.py", code);
    assert!(result.is_ok());
}

#[test]
fn parse_file_rejects_unknown_languages() {
    let mut parser = CodeParser::new();
    match parser.parse_file("notes.txt", "hello") {
        Err(cudgel::error::Error::Parse(m)) => {
            assert_eq!(m, "Cannot detect language for \"notes.txt\"")
        }
        _ => panic!("expected a parse error"),
    }
}

#[test]
fn syntax_trees_list_children_after_parents() {
    let mut parser = CodeParser::new();
    let (ast, _) = parser.parse_file("m.go", "package main\nfunc main() {}\n").unwrap();
    for (i, n) in ast.nodes.iter().enumerate() {
        for &c in &n.children {
            assert!(i < c && c < ast.nodes.len());
        }
    }
    let symbols = parser.extract_symbols(&ast, "go");
    assert_eq!(symbols.len(), 1);
    assert_eq!(symbols[0].name, "main");
}

#[test]
fn hashes_are_lowercase_hex_sha256() {
    assert_eq!(
        compute_hash(""),
        "e3b0c44298fc1c149afbf4c8996fb92427ae41e4649b934ca495991b7852b855"
    );
    assert_eq!(
        compute_hash("abc"),
        "ba7816bf8f01cfea414140de5dae2223b00361a396177a9cb410ff61f20015ad"
    );
    assert_eq!(hex_encode(&[0x00, 0x0f, 0xa0, 0xff]), "000fa0ff");
}

#[test]
fn parsed_trees_are_preorder_flattenings() {
    let mut parser = CodeParser::new();
    let (tree, _) = parser
        .parse_file("a.py", "def f(x):\n    return x\n\nclass C:\n    pass\n")
        .unwrap();
    let nodes = &tree.nodes;
    assert_eq!(nodes[0].node_type, "module");
    assert_eq!((nodes[0].start_line, nodes[0].start_column), (0, 0));
    assert_eq!(nodes[1].node_type, "function_definition");
    assert!(nodes[0].children.contains(&1));
    let mut parents = vec![usize::MAX; nodes.len()];
    for (i, n) in nodes.iter().enumerate() {
        let mut last = i;
        for &c in &n.children {
            assert!(c > last, "children come after their parent, in order");
            assert_eq!(parents[c], usize::MAX, "each node has one parent");
            parents[c] = i;
            last = c;
        }
    }
    assert!(parents.iter().skip(1).all(|&p| p != usize::MAX));
    let class = nodes.iter().position(|n| n.node_type == "class_definition").unwrap();
    assert_eq!(nodes[class].start_line, 3);
    assert_eq!(nodes[class].text, "class C:\n    pass");
}

#[test]
fn parse_file_names_the_detected_language() {
    let mut parser = CodeParser::new();
    let (_, lang) = parser.parse_file("lib.rs", "fn main() {}\n").unwrap();
    assert_eq!(lang, "rust");
    let (_, lang) = parser.parse_file("app.tsx", "const x = 1;\n").unwrap();
    assert_eq!(lang, "typescript");
}

#[test]
fn node_text_is_the_source_between_its_bytes() {
    let mut parser = CodeParser::new();
    let code = "x = \"héllo\"\ny = 2\n";
    let (tree, _) = parser.parse_file("t.py", code).unwrap();
    assert_eq!(tree.nodes[0].text, code);
    let s = tree.nodes.iter().find(|n| n.node_type == "string").unwrap();
    assert_eq!(s.text, "\"héllo\"");
    let second = tree.nodes.iter().filter(|n| n.node_type == "expression_statement").nth(1).unwrap();
    assert_eq!(second.text, "y = 2");
}
