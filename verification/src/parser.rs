//! Source files: which language a file is written in, and (through
//! tree-sitter) its syntax tree and the symbols it defines.
use vstd::prelude::*;
use sha2::Digest;
use vstd::utf8::{decode_utf8, encode_utf8, is_char_boundary};
use crate::error::{Error, Result};
use crate::paths::extension;
use crate::paths::extension_exec;
use crate::text::{
    cat, contains, lines, lines_of, str_contains, str_eq, trim, trim_char, trim_matches_char, trim_str,
};

verus! {

/// A node of a syntax tree, with its position (lines and columns counted
/// from 0).  Its children are given by their places in the tree's node list
/// (a node cannot hold a vector of nodes of its own type here).
#[derive(Debug, Clone)]
pub struct ASTNode {
    /// The node type of the tree-sitter grammar (e.g. `function_definition`)
    pub node_type: String,
    /// The source text that the node spans
    pub text: String,
    pub start_line: usize,
    pub start_column: usize,
    pub end_line: usize,
    pub end_column: usize,
    /// The places of the children, in order, in the tree's node list
    pub children: Vec<usize>,
}

/// A syntax tree as a node list in preorder: the root first, and every node
/// before its descendants, which come before the nodes that follow it.
#[derive(Debug, Clone)]
pub struct SyntaxTree {
    pub nodes: Vec<ASTNode>,
}

/// A symbol (function, class, method, ...) extracted from source code.
#[derive(Debug, Clone)]
pub struct Symbol {
    pub name: String,
    /// `function`, `class`, `method`, `struct`, `enum`, `trait` or `symbol`
    pub kind: String,
    /// The first line of the symbol's text, trimmed
    pub signature: Option<String>,
    /// The documentation string (Python only)
    pub docstring: Option<String>,
    /// Starting line (counted from 0)
    pub start_line: usize,
    /// Ending line (counted from 0)
    pub end_line: usize,
    /// The symbol's full source text
    pub text: String,
}

/// The languages that cudgel can parse, by the names it uses for them.
pub open spec fn is_supported_language(l: Seq<char>) -> bool {
    ||| l == "python"@
    ||| l == "javascript"@
    ||| l == "typescript"@
    ||| l == "rust"@
    ||| l == "go"@
    ||| l == "c"@
    ||| l == "cpp"@
    ||| l == "java"@
}

/// The language that a file extension stands for.
pub open spec fn language_of_extension(ext: Seq<char>) -> Option<Seq<char>> {
    if ext == "py"@ || ext == "pyw"@ {
        Some("python"@)
    } else if ext == "js"@ || ext == "jsx"@ || ext == "mjs"@ {
        Some("javascript"@)
    } else if ext == "ts"@ || ext == "tsx"@ {
        Some("typescript"@)
    } else if ext == "rs"@ {
        Some("rust"@)
    } else if ext == "go"@ {
        Some("go"@)
    } else if ext == "c"@ || ext == "h"@ {
        Some("c"@)
    } else if ext == "cpp"@ || ext == "cc"@ || ext == "cxx"@ || ext == "hpp"@ || ext == "hh"@
        || ext == "hxx"@ {
        Some("cpp"@)
    } else if ext == "java"@ {
        Some("java"@)
    } else {
        None
    }
}

/// The language of the file at `path`, judged by its extension.
pub open spec fn detected_language(path: Seq<char>) -> Option<Seq<char>> {
    match extension(path) {
        None => None,
        Some(e) => language_of_extension(e),
    }
}

/// Detects the programming language of a file from its extension.
pub fn detect_language(path: &str) -> (res: Option<String>)
    ensures
        match detected_language(path@) {
            None => res.is_none(),
            Some(l) => res.is_some() && res.unwrap()@ == l,
        },
{
    let ext = match extension_exec(path) {
        None => return None,
        Some(e) => e,
    };
    let e = ext.as_str();
    if str_eq(e, "py") || str_eq(e, "pyw") {
        Some(String::from_str("python"))
    } else if str_eq(e, "js") || str_eq(e, "jsx") || str_eq(e, "mjs") {
        Some(String::from_str("javascript"))
    } else if str_eq(e, "ts") || str_eq(e, "tsx") {
        Some(String::from_str("typescript"))
    } else if str_eq(e, "rs") {
        Some(String::from_str("rust"))
    } else if str_eq(e, "go") {
        Some(String::from_str("go"))
    } else if str_eq(e, "c") || str_eq(e, "h") {
        Some(String::from_str("c"))
    } else if str_eq(e, "cpp") || str_eq(e, "cc") || str_eq(e, "cxx") || str_eq(e, "hpp")
        || str_eq(e, "hh") || str_eq(e, "hxx") {
        Some(String::from_str("cpp"))
    } else if str_eq(e, "java") {
        Some(String::from_str("java"))
    } else {
        None
    }
}

/// Whether `l` names a language that cudgel can parse.
pub fn is_supported(l: &str) -> (b: bool)
    ensures
        b == is_supported_language(l@),
{
    str_eq(l, "python") || str_eq(l, "javascript") || str_eq(l, "typescript") || str_eq(l, "rust")
        || str_eq(l, "go") || str_eq(l, "c") || str_eq(l, "cpp") || str_eq(l, "java")
}

/// Every language that `detect_language` reports is one that cudgel can
/// parse (and that an `IndexFilter` accepts).
pub proof fn law_detected_languages_are_supported(path: Seq<char>)
    ensures
        detected_language(path) matches Some(l) ==> is_supported_language(l),
{
}


/// The extension table: a file whose name ends in one of the documented
/// extensions is detected as written in that extension's language (`.py`
/// and `.pyw` Python; `.js`, `.jsx` and `.mjs` JavaScript; `.ts` and `.tsx`
/// TypeScript; `.rs` Rust; `.go` Go; `.c` and `.h` C; `.cpp`, `.cc`, `.cxx`,
/// `.hpp`, `.hh` and `.hxx` C++; `.java` Java).
pub proof fn law_extension_table(path: Seq<char>)
    ensures
        extension(path) == Some("py"@) ==> detected_language(path) == Some("python"@),
        extension(path) == Some("pyw"@) ==> detected_language(path) == Some("python"@),
        extension(path) == Some("js"@) ==> detected_language(path) == Some("javascript"@),
        extension(path) == Some("jsx"@) ==> detected_language(path) == Some("javascript"@),
        extension(path) == Some("mjs"@) ==> detected_language(path) == Some("javascript"@),
        extension(path) == Some("ts"@) ==> detected_language(path) == Some("typescript"@),
        extension(path) == Some("tsx"@) ==> detected_language(path) == Some("typescript"@),
        extension(path) == Some("rs"@) ==> detected_language(path) == Some("rust"@),
        extension(path) == Some("go"@) ==> detected_language(path) == Some("go"@),
        extension(path) == Some("c"@) ==> detected_language(path) == Some("c"@),
        extension(path) == Some("h"@) ==> detected_language(path) == Some("c"@),
        extension(path) == Some("cpp"@) ==> detected_language(path) == Some("cpp"@),
        extension(path) == Some("cc"@) ==> detected_language(path) == Some("cpp"@),
        extension(path) == Some("cxx"@) ==> detected_language(path) == Some("cpp"@),
        extension(path) == Some("hpp"@) ==> detected_language(path) == Some("cpp"@),
        extension(path) == Some("hh"@) ==> detected_language(path) == Some("cpp"@),
        extension(path) == Some("hxx"@) ==> detected_language(path) == Some("cpp"@),
        extension(path) == Some("java"@) ==> detected_language(path) == Some("java"@),
{
    assert(language_of_extension("py"@) == Some("python"@)) by {
        reveal_strlit("py");
        reveal_strlit("python");
    }
    assert(language_of_extension("pyw"@) == Some("python"@)) by {
        reveal_strlit("pyw");
        reveal_strlit("python");
        reveal_strlit("py");
        assert("pyw"@.len() != "py"@.len());
    }
    assert(language_of_extension("js"@) == Some("javascript"@)) by {
        reveal_strlit("js");
        reveal_strlit("javascript");
        reveal_strlit("py");
        reveal_strlit("pyw");
        assert("js"@[0] != "py"@[0]);
        assert("js"@.len() != "pyw"@.len());
    }
    assert(language_of_extension("jsx"@) == Some("javascript"@)) by {
        reveal_strlit("jsx");
        reveal_strlit("javascript");
        reveal_strlit("py");
        reveal_strlit("pyw");
        reveal_strlit("js");
        assert("jsx"@.len() != "py"@.len());
        assert("jsx"@[0] != "pyw"@[0]);
        assert("jsx"@.len() != "js"@.len());
    }
    assert(language_of_extension("mjs"@) == Some("javascript"@)) by {
        reveal_strlit("mjs");
        reveal_strlit("javascript");
        reveal_strlit("py");
        reveal_strlit("pyw");
        reveal_strlit("js");
        reveal_strlit("jsx");
        assert("mjs"@.len() != "py"@.len());
        assert("mjs"@[0] != "pyw"@[0]);
        assert("mjs"@.len() != "js"@.len());
        assert("mjs"@[0] != "jsx"@[0]);
    }
    assert(language_of_extension("ts"@) == Some("typescript"@)) by {
        reveal_strlit("ts");
        reveal_strlit("typescript");
        reveal_strlit("py");
        reveal_strlit("pyw");
        reveal_strlit("js");
        reveal_strlit("jsx");
        reveal_strlit("mjs");
        assert("ts"@[0] != "py"@[0]);
        assert("ts"@.len() != "pyw"@.len());
        assert("ts"@[0] != "js"@[0]);
        assert("ts"@.len() != "jsx"@.len());
        assert("ts"@.len() != "mjs"@.len());
    }
    assert(language_of_extension("tsx"@) == Some("typescript"@)) by {
        reveal_strlit("tsx");
        reveal_strlit("typescript");
        reveal_strlit("py");
        reveal_strlit("pyw");
        reveal_strlit("js");
        reveal_strlit("jsx");
        reveal_strlit("mjs");
        reveal_strlit("ts");
        assert("tsx"@.len() != "py"@.len());
        assert("tsx"@[0] != "pyw"@[0]);
        assert("tsx"@.len() != "js"@.len());
        assert("tsx"@[0] != "jsx"@[0]);
        assert("tsx"@[0] != "mjs"@[0]);
        assert("tsx"@.len() != "ts"@.len());
    }
    assert(language_of_extension("rs"@) == Some("rust"@)) by {
        reveal_strlit("rs");
        reveal_strlit("rust");
        reveal_strlit("py");
        reveal_strlit("pyw");
        reveal_strlit("js");
        reveal_strlit("jsx");
        reveal_strlit("mjs");
        reveal_strlit("ts");
        reveal_strlit("tsx");
        assert("rs"@[0] != "py"@[0]);
        assert("rs"@.len() != "pyw"@.len());
        assert("rs"@[0] != "js"@[0]);
        assert("rs"@.len() != "jsx"@.len());
        assert("rs"@.len() != "mjs"@.len());
        assert("rs"@[0] != "ts"@[0]);
        assert("rs"@.len() != "tsx"@.len());
    }
    assert(language_of_extension("go"@) == Some("go"@)) by {
        reveal_strlit("go");
        reveal_strlit("go");
        reveal_strlit("py");
        reveal_strlit("pyw");
        reveal_strlit("js");
        reveal_strlit("jsx");
        reveal_strlit("mjs");
        reveal_strlit("ts");
        reveal_strlit("tsx");
        reveal_strlit("rs");
        assert("go"@[0] != "py"@[0]);
        assert("go"@.len() != "pyw"@.len());
        assert("go"@[0] != "js"@[0]);
        assert("go"@.len() != "jsx"@.len());
        assert("go"@.len() != "mjs"@.len());
        assert("go"@[0] != "ts"@[0]);
        assert("go"@.len() != "tsx"@.len());
        assert("go"@[0] != "rs"@[0]);
    }
    assert(language_of_extension("c"@) == Some("c"@)) by {
        reveal_strlit("c");
        reveal_strlit("c");
        reveal_strlit("py");
        reveal_strlit("pyw");
        reveal_strlit("js");
        reveal_strlit("jsx");
        reveal_strlit("mjs");
        reveal_strlit("ts");
        reveal_strlit("tsx");
        reveal_strlit("rs");
        reveal_strlit("go");
        assert("c"@.len() != "py"@.len());
        assert("c"@.len() != "pyw"@.len());
        assert("c"@.len() != "js"@.len());
        assert("c"@.len() != "jsx"@.len());
        assert("c"@.len() != "mjs"@.len());
        assert("c"@.len() != "ts"@.len());
        assert("c"@.len() != "tsx"@.len());
        assert("c"@.len() != "rs"@.len());
        assert("c"@.len() != "go"@.len());
    }
    assert(language_of_extension("h"@) == Some("c"@)) by {
        reveal_strlit("h");
        reveal_strlit("c");
        reveal_strlit("py");
        reveal_strlit("pyw");
        reveal_strlit("js");
        reveal_strlit("jsx");
        reveal_strlit("mjs");
        reveal_strlit("ts");
        reveal_strlit("tsx");
        reveal_strlit("rs");
        reveal_strlit("go");
        reveal_strlit("c");
        assert("h"@.len() != "py"@.len());
        assert("h"@.len() != "pyw"@.len());
        assert("h"@.len() != "js"@.len());
        assert("h"@.len() != "jsx"@.len());
        assert("h"@.len() != "mjs"@.len());
        assert("h"@.len() != "ts"@.len());
        assert("h"@.len() != "tsx"@.len());
        assert("h"@.len() != "rs"@.len());
        assert("h"@.len() != "go"@.len());
        assert("h"@[0] != "c"@[0]);
    }
    assert(language_of_extension("cpp"@) == Some("cpp"@)) by {
        reveal_strlit("cpp");
        reveal_strlit("cpp");
        reveal_strlit("py");
        reveal_strlit("pyw");
        reveal_strlit("js");
        reveal_strlit("jsx");
        reveal_strlit("mjs");
        reveal_strlit("ts");
        reveal_strlit("tsx");
        reveal_strlit("rs");
        reveal_strlit("go");
        reveal_strlit("c");
        reveal_strlit("h");
        assert("cpp"@.len() != "py"@.len());
        assert("cpp"@[0] != "pyw"@[0]);
        assert("cpp"@.len() != "js"@.len());
        assert("cpp"@[0] != "jsx"@[0]);
        assert("cpp"@[0] != "mjs"@[0]);
        assert("cpp"@.len() != "ts"@.len());
        assert("cpp"@[0] != "tsx"@[0]);
        assert("cpp"@.len() != "rs"@.len());
        assert("cpp"@.len() != "go"@.len());
        assert("cpp"@.len() != "c"@.len());
        assert("cpp"@.len() != "h"@.len());
    }
    assert(language_of_extension("cc"@) == Some("cpp"@)) by {
        reveal_strlit("cc");
        reveal_strlit("cpp");
        reveal_strlit("py");
        reveal_strlit("pyw");
        reveal_strlit("js");
        reveal_strlit("jsx");
        reveal_strlit("mjs");
        reveal_strlit("ts");
        reveal_strlit("tsx");
        reveal_strlit("rs");
        reveal_strlit("go");
        reveal_strlit("c");
        reveal_strlit("h");
        reveal_strlit("cpp");
        assert("cc"@[0] != "py"@[0]);
        assert("cc"@.len() != "pyw"@.len());
        assert("cc"@[0] != "js"@[0]);
        assert("cc"@.len() != "jsx"@.len());
        assert("cc"@.len() != "mjs"@.len());
        assert("cc"@[0] != "ts"@[0]);
        assert("cc"@.len() != "tsx"@.len());
        assert("cc"@[0] != "rs"@[0]);
        assert("cc"@[0] != "go"@[0]);
        assert("cc"@.len() != "c"@.len());
        assert("cc"@.len() != "h"@.len());
        assert("cc"@.len() != "cpp"@.len());
    }
    assert(language_of_extension("cxx"@) == Some("cpp"@)) by {
        reveal_strlit("cxx");
        reveal_strlit("cpp");
        reveal_strlit("py");
        reveal_strlit("pyw");
        reveal_strlit("js");
        reveal_strlit("jsx");
        reveal_strlit("mjs");
        reveal_strlit("ts");
        reveal_strlit("tsx");
        reveal_strlit("rs");
        reveal_strlit("go");
        reveal_strlit("c");
        reveal_strlit("h");
        reveal_strlit("cpp");
        reveal_strlit("cc");
        assert("cxx"@.len() != "py"@.len());
        assert("cxx"@[0] != "pyw"@[0]);
        assert("cxx"@.len() != "js"@.len());
        assert("cxx"@[0] != "jsx"@[0]);
        assert("cxx"@[0] != "mjs"@[0]);
        assert("cxx"@.len() != "ts"@.len());
        assert("cxx"@[0] != "tsx"@[0]);
        assert("cxx"@.len() != "rs"@.len());
        assert("cxx"@.len() != "go"@.len());
        assert("cxx"@.len() != "c"@.len());
        assert("cxx"@.len() != "h"@.len());
        assert("cxx"@[1] != "cpp"@[1]);
        assert("cxx"@.len() != "cc"@.len());
    }
    assert(language_of_extension("hpp"@) == Some("cpp"@)) by {
        reveal_strlit("hpp");
        reveal_strlit("cpp");
        reveal_strlit("py");
        reveal_strlit("pyw");
        reveal_strlit("js");
        reveal_strlit("jsx");
        reveal_strlit("mjs");
        reveal_strlit("ts");
        reveal_strlit("tsx");
        reveal_strlit("rs");
        reveal_strlit("go");
        reveal_strlit("c");
        reveal_strlit("h");
        reveal_strlit("cpp");
        reveal_strlit("cc");
        reveal_strlit("cxx");
        assert("hpp"@.len() != "py"@.len());
        assert("hpp"@[0] != "pyw"@[0]);
        assert("hpp"@.len() != "js"@.len());
        assert("hpp"@[0] != "jsx"@[0]);
        assert("hpp"@[0] != "mjs"@[0]);
        assert("hpp"@.len() != "ts"@.len());
        assert("hpp"@[0] != "tsx"@[0]);
        assert("hpp"@.len() != "rs"@.len());
        assert("hpp"@.len() != "go"@.len());
        assert("hpp"@.len() != "c"@.len());
        assert("hpp"@.len() != "h"@.len());
        assert("hpp"@[0] != "cpp"@[0]);
        assert("hpp"@.len() != "cc"@.len());
        assert("hpp"@[0] != "cxx"@[0]);
    }
    assert(language_of_extension("hh"@) == Some("cpp"@)) by {
        reveal_strlit("hh");
        reveal_strlit("cpp");
        reveal_strlit("py");
        reveal_strlit("pyw");
        reveal_strlit("js");
        reveal_strlit("jsx");
        reveal_strlit("mjs");
        reveal_strlit("ts");
        reveal_strlit("tsx");
        reveal_strlit("rs");
        reveal_strlit("go");
        reveal_strlit("c");
        reveal_strlit("h");
        reveal_strlit("cpp");
        reveal_strlit("cc");
        reveal_strlit("cxx");
        reveal_strlit("hpp");
        assert("hh"@[0] != "py"@[0]);
        assert("hh"@.len() != "pyw"@.len());
        assert("hh"@[0] != "js"@[0]);
        assert("hh"@.len() != "jsx"@.len());
        assert("hh"@.len() != "mjs"@.len());
        assert("hh"@[0] != "ts"@[0]);
        assert("hh"@.len() != "tsx"@.len());
        assert("hh"@[0] != "rs"@[0]);
        assert("hh"@[0] != "go"@[0]);
        assert("hh"@.len() != "c"@.len());
        assert("hh"@.len() != "h"@.len());
        assert("hh"@.len() != "cpp"@.len());
        assert("hh"@[0] != "cc"@[0]);
        assert("hh"@.len() != "cxx"@.len());
        assert("hh"@.len() != "hpp"@.len());
    }
    assert(language_of_extension("hxx"@) == Some("cpp"@)) by {
        reveal_strlit("hxx");
        reveal_strlit("cpp");
        reveal_strlit("py");
        reveal_strlit("pyw");
        reveal_strlit("js");
        reveal_strlit("jsx");
        reveal_strlit("mjs");
        reveal_strlit("ts");
        reveal_strlit("tsx");
        reveal_strlit("rs");
        reveal_strlit("go");
        reveal_strlit("c");
        reveal_strlit("h");
        reveal_strlit("cpp");
        reveal_strlit("cc");
        reveal_strlit("cxx");
        reveal_strlit("hpp");
        reveal_strlit("hh");
        assert("hxx"@.len() != "py"@.len());
        assert("hxx"@[0] != "pyw"@[0]);
        assert("hxx"@.len() != "js"@.len());
        assert("hxx"@[0] != "jsx"@[0]);
        assert("hxx"@[0] != "mjs"@[0]);
        assert("hxx"@.len() != "ts"@.len());
        assert("hxx"@[0] != "tsx"@[0]);
        assert("hxx"@.len() != "rs"@.len());
        assert("hxx"@.len() != "go"@.len());
        assert("hxx"@.len() != "c"@.len());
        assert("hxx"@.len() != "h"@.len());
        assert("hxx"@[0] != "cpp"@[0]);
        assert("hxx"@.len() != "cc"@.len());
        assert("hxx"@[0] != "cxx"@[0]);
        assert("hxx"@[1] != "hpp"@[1]);
        assert("hxx"@.len() != "hh"@.len());
    }
    assert(language_of_extension("java"@) == Some("java"@)) by {
        reveal_strlit("java");
        reveal_strlit("java");
        reveal_strlit("py");
        reveal_strlit("pyw");
        reveal_strlit("js");
        reveal_strlit("jsx");
        reveal_strlit("mjs");
        reveal_strlit("ts");
        reveal_strlit("tsx");
        reveal_strlit("rs");
        reveal_strlit("go");
        reveal_strlit("c");
        reveal_strlit("h");
        reveal_strlit("cpp");
        reveal_strlit("cc");
        reveal_strlit("cxx");
        reveal_strlit("hpp");
        reveal_strlit("hh");
        reveal_strlit("hxx");
        assert("java"@.len() != "py"@.len());
        assert("java"@.len() != "pyw"@.len());
        assert("java"@.len() != "js"@.len());
        assert("java"@.len() != "jsx"@.len());
        assert("java"@.len() != "mjs"@.len());
        assert("java"@.len() != "ts"@.len());
        assert("java"@.len() != "tsx"@.len());
        assert("java"@.len() != "rs"@.len());
        assert("java"@.len() != "go"@.len());
        assert("java"@.len() != "c"@.len());
        assert("java"@.len() != "h"@.len());
        assert("java"@.len() != "cpp"@.len());
        assert("java"@.len() != "cc"@.len());
        assert("java"@.len() != "cxx"@.len());
        assert("java"@.len() != "hpp"@.len());
        assert("java"@.len() != "hh"@.len());
        assert("java"@.len() != "hxx"@.len());
    }
}

// ---------------------------------------------------------------------------
// Symbols
// ---------------------------------------------------------------------------

/// The node types that define symbols in `language`.
pub open spec fn is_symbol_type(language: Seq<char>, t: Seq<char>) -> bool {
    if language == "python"@ {
        t == "function_definition"@ || t == "class_definition"@
    } else if language == "javascript"@ || language == "typescript"@ {
        t == "function_declaration"@ || t == "arrow_function"@ || t == "class_declaration"@
    } else if language == "rust"@ {
        t == "function_item"@ || t == "struct_item"@ || t == "enum_item"@ || t == "trait_item"@
    } else if language == "go"@ {
        t == "function_declaration"@ || t == "method_declaration"@ || t == "type_declaration"@
    } else if language == "c"@ || language == "cpp"@ {
        t == "function_definition"@ || t == "class_specifier"@ || t == "struct_specifier"@
    } else if language == "java"@ {
        t == "method_declaration"@ || t == "class_declaration"@
    } else {
        false
    }
}

/// Whether nodes of type `t` define symbols in `language`.
pub fn symbol_type(language: &str, t: &str) -> (b: bool)
    ensures
        b == is_symbol_type(language@, t@),
{
    if str_eq(language, "python") {
        str_eq(t, "function_definition") || str_eq(t, "class_definition")
    } else if str_eq(language, "javascript") || str_eq(language, "typescript") {
        str_eq(t, "function_declaration") || str_eq(t, "arrow_function") || str_eq(
            t,
            "class_declaration",
        )
    } else if str_eq(language, "rust") {
        str_eq(t, "function_item") || str_eq(t, "struct_item") || str_eq(t, "enum_item") || str_eq(
            t,
            "trait_item",
        )
    } else if str_eq(language, "go") {
        str_eq(t, "function_declaration") || str_eq(t, "method_declaration") || str_eq(
            t,
            "type_declaration",
        )
    } else if str_eq(language, "c") || str_eq(language, "cpp") {
        str_eq(t, "function_definition") || str_eq(t, "class_specifier") || str_eq(
            t,
            "struct_specifier",
        )
    } else if str_eq(language, "java") {
        str_eq(t, "method_declaration") || str_eq(t, "class_declaration")
    } else {
        false
    }
}

/// A node type that names a symbol: it mentions `identifier` or `name`.
pub open spec fn is_name_type(t: Seq<char>) -> bool {
    contains(t, "identifier"@) || contains(t, "name"@)
}

/// The text of the first of the children `cs` that names a symbol.
pub open spec fn first_name(nodes: Seq<ASTNode>, cs: Seq<usize>) -> Option<Seq<char>>
    decreases cs.len(),
{
    if cs.len() == 0 {
        None
    } else if cs[0] < nodes.len() && is_name_type(nodes[cs[0] as int].node_type@) {
        Some(nodes[cs[0] as int].text@)
    } else {
        first_name(nodes, cs.drop_first())
    }
}

/// The kind of symbol that a node type defines.
pub open spec fn kind_of(t: Seq<char>) -> Seq<char> {
    if contains(t, "function"@) {
        "function"@
    } else if contains(t, "class"@) {
        "class"@
    } else if contains(t, "method"@) {
        "method"@
    } else if contains(t, "struct"@) {
        "struct"@
    } else if contains(t, "enum"@) {
        "enum"@
    } else if contains(t, "trait"@) {
        "trait"@
    } else {
        "symbol"@
    }
}

/// The words looked for in a node type to tell the kind of symbol it
/// defines, in the order they are tried.
pub open spec fn kind_words() -> Seq<Seq<char>> {
    seq!["function"@, "class"@, "method"@, "struct"@, "enum"@, "trait"@]
}

/// The kind of every symbol extracted is the first of `function`, `class`,
/// `method`, `struct`, `enum` and `trait` that the type of its node
/// contains, and `symbol` when the type contains none of them.
pub proof fn law_symbol_kind_is_first_word_of_node_type(
    sym: Symbol,
    nodes: Seq<ASTNode>,
    i: int,
    language: Seq<char>,
)
    requires
        symbol_of(sym, nodes, i, language),
    ensures
        forall|w: int|
            0 <= w < kind_words().len() && contains(nodes[i].node_type@, #[trigger] kind_words()[w]) && (
            forall|v: int| 0 <= v < w ==> !contains(nodes[i].node_type@, kind_words()[v])) ==> sym.kind@
                == kind_words()[w],
        (forall|v: int| 0 <= v < kind_words().len() ==> !contains(nodes[i].node_type@, kind_words()[v]))
            ==> sym.kind@ == "symbol"@,
{
    let t = nodes[i].node_type@;
    let ws = kind_words();
    assert(ws[0] == "function"@ && ws[1] == "class"@ && ws[2] == "method"@ && ws[3] == "struct"@
        && ws[4] == "enum"@ && ws[5] == "trait"@);
    assert forall|w: int|
        0 <= w < ws.len() && contains(t, #[trigger] ws[w]) && (forall|v: int|
            0 <= v < w ==> !contains(t, ws[v])) implies sym.kind@ == ws[w] by {
        if w >= 1 {
            assert(!contains(t, ws[0]));
        }
        if w >= 2 {
            assert(!contains(t, ws[1]));
        }
        if w >= 3 {
            assert(!contains(t, ws[2]));
        }
        if w >= 4 {
            assert(!contains(t, ws[3]));
        }
        if w >= 5 {
            assert(!contains(t, ws[4]));
        }
    }
    if forall|v: int| 0 <= v < ws.len() ==> !contains(t, ws[v]) {
        assert(!contains(t, ws[0]) && !contains(t, ws[1]) && !contains(t, ws[2]));
        assert(!contains(t, ws[3]) && !contains(t, ws[4]) && !contains(t, ws[5]));
    }
}

/// The signature of a symbol: the first line of its text, trimmed.
pub open spec fn signature_of(text: Seq<char>) -> Option<Seq<char>> {
    if lines(text).len() > 0 {
        Some(trim(lines(text)[0]))
    } else {
        None
    }
}

/// A docstring without its quotes and surrounding white space.
pub open spec fn clean_docstring(t: Seq<char>) -> Seq<char> {
    trim(trim_matches_char(trim_matches_char(trim(t), '"'), '\''))
}

/// The cleaned text of the first of the statements `ss` that is a string.
pub open spec fn first_string(nodes: Seq<ASTNode>, ss: Seq<usize>) -> Option<Seq<char>>
    decreases ss.len(),
{
    if ss.len() == 0 {
        None
    } else if ss[0] < nodes.len() && contains(nodes[ss[0] as int].node_type@, "string"@) {
        Some(clean_docstring(nodes[ss[0] as int].text@))
    } else {
        first_string(nodes, ss.drop_first())
    }
}

/// The docstring in the first of the children `cs` that is a `block` with a
/// string statement.
pub open spec fn docstring_in(nodes: Seq<ASTNode>, cs: Seq<usize>) -> Option<Seq<char>>
    decreases cs.len(),
{
    if cs.len() == 0 {
        None
    } else if cs[0] < nodes.len() && nodes[cs[0] as int].node_type@ == "block"@ && first_string(
        nodes,
        nodes[cs[0] as int].children@,
    ) is Some {
        first_string(nodes, nodes[cs[0] as int].children@)
    } else {
        docstring_in(nodes, cs.drop_first())
    }
}

/// The docstring of a symbol node (Python only).
pub open spec fn docstring_of(nodes: Seq<ASTNode>, n: ASTNode, language: Seq<char>) -> Option<Seq<char>> {
    if language == "python"@ {
        docstring_in(nodes, n.children@)
    } else {
        None
    }
}

/// The view of an optional string.
pub open spec fn opt_view(o: Option<String>) -> Option<Seq<char>> {
    match o {
        Some(s) => Some(s@),
        None => None,
    }
}

/// The node at place `i` defines a symbol: its type is a symbol type of the
/// language and one of its children names it.
pub open spec fn defines_symbol(nodes: Seq<ASTNode>, i: int, language: Seq<char>) -> bool {
    is_symbol_type(language, nodes[i].node_type@) && first_name(nodes, nodes[i].children@) is Some
}

/// `sym` is the symbol that the node at place `i` defines.
pub open spec fn symbol_of(sym: Symbol, nodes: Seq<ASTNode>, i: int, language: Seq<char>) -> bool {
    let n = nodes[i];
    &&& first_name(nodes, n.children@) == Some(sym.name@)
    &&& sym.kind@ == kind_of(n.node_type@)
    &&& opt_view(sym.signature) == signature_of(n.text@)
    &&& opt_view(sym.docstring) == docstring_of(nodes, n, language)
    &&& sym.start_line == n.start_line
    &&& sym.end_line == n.end_line
    &&& sym.text@ == n.text@
}

/// The places, in order, of the nodes among the first `n` that define
/// symbols.
pub open spec fn symbol_places(nodes: Seq<ASTNode>, language: Seq<char>, n: int) -> Seq<int>
    decreases n,
{
    if n <= 0 {
        Seq::empty()
    } else {
        let rest = symbol_places(nodes, language, n - 1);
        if defines_symbol(nodes, n - 1, language) {
            rest.push(n - 1)
        } else {
            rest
        }
    }
}

fn symbol_name(nodes: &Vec<ASTNode>, node: &ASTNode) -> (res: Option<String>)
    ensures
        opt_view(res) == first_name(nodes@, node.children@),
{
    let cs = &node.children;
    let mut i: usize = 0;
    assert(cs@.skip(0) =~= cs@);
    while i < cs.len()
        invariant
            i <= cs.len(),
            cs@ == node.children@,
            first_name(nodes@, cs@.skip(i as int)) == first_name(nodes@, cs@),
        decreases cs.len() - i,
    {
        let c = cs[i];
        assert(cs@.skip(i as int)[0] == c);
        if c < nodes.len() {
            let t = nodes[c].node_type.as_str();
            if str_contains(t, "identifier") || str_contains(t, "name") {
                assert(cs@.skip(i as int).len() > 0);
                assert(is_name_type(nodes@[c as int].node_type@));
                assert(first_name(nodes@, cs@.skip(i as int)) == Some(nodes@[c as int].text@));
                return Some(nodes[c].text.clone());
            }
        }
        assert(cs@.skip(i as int).drop_first() =~= cs@.skip(i + 1));
        i = i + 1;
    }
    assert(cs@.skip(i as int).len() == 0);
    None
}

fn symbol_kind(t: &str) -> (res: String)
    ensures
        res@ == kind_of(t@),
{
    if str_contains(t, "function") {
        String::from_str("function")
    } else if str_contains(t, "class") {
        String::from_str("class")
    } else if str_contains(t, "method") {
        String::from_str("method")
    } else if str_contains(t, "struct") {
        String::from_str("struct")
    } else if str_contains(t, "enum") {
        String::from_str("enum")
    } else if str_contains(t, "trait") {
        String::from_str("trait")
    } else {
        String::from_str("symbol")
    }
}

fn symbol_signature(text: &str) -> (res: Option<String>)
    ensures
        opt_view(res) == signature_of(text@),
{
    let ls = lines_of(text);
    if ls.len() > 0 {
        assert(crate::text::strings(ls@)[0] == ls@[0]@);
        Some(trim_str(ls[0].as_str()))
    } else {
        None
    }
}

fn first_string_statement(nodes: &Vec<ASTNode>, ss: &Vec<usize>) -> (res: Option<String>)
    ensures
        opt_view(res) == first_string(nodes@, ss@),
{
    let mut i: usize = 0;
    assert(ss@.skip(0) =~= ss@);
    while i < ss.len()
        invariant
            i <= ss.len(),
            first_string(nodes@, ss@.skip(i as int)) == first_string(nodes@, ss@),
        decreases ss.len() - i,
    {
        let c = ss[i];
        assert(ss@.skip(i as int)[0] == c);
        if c < nodes.len() && str_contains(nodes[c].node_type.as_str(), "string") {
            let t = trim_str(nodes[c].text.as_str());
            let a = trim_char(t.as_str(), '"');
            let b = trim_char(a.as_str(), '\'');
            return Some(trim_str(b.as_str()));
        }
        assert(ss@.skip(i as int).drop_first() =~= ss@.skip(i + 1));
        i = i + 1;
    }
    assert(ss@.skip(i as int).len() == 0);
    None
}

fn symbol_docstring(nodes: &Vec<ASTNode>, node: &ASTNode, language: &str) -> (res: Option<String>)
    ensures
        opt_view(res) == docstring_of(nodes@, *node, language@),
{
    if !str_eq(language, "python") {
        return None;
    }
    let cs = &node.children;
    let mut i: usize = 0;
    assert(cs@.skip(0) =~= cs@);
    while i < cs.len()
        invariant
            i <= cs.len(),
            cs@ == node.children@,
            language@ == "python"@,
            docstring_in(nodes@, cs@.skip(i as int)) == docstring_in(nodes@, cs@),
        decreases cs.len() - i,
    {
        let c = cs[i];
        assert(cs@.skip(i as int)[0] == c);
        if c < nodes.len() && str_eq(nodes[c].node_type.as_str(), "block") {
            let d = first_string_statement(nodes, &nodes[c].children);
            if d.is_some() {
                assert(cs@.skip(i as int).len() > 0);
                assert(docstring_in(nodes@, cs@.skip(i as int)) == first_string(nodes@, nodes@[c as int].children@));
                return d;
            }
        }
        assert(cs@.skip(i as int).drop_first() =~= cs@.skip(i + 1));
        i = i + 1;
    }
    assert(cs@.skip(i as int).len() == 0);
    None
}

/// Extracts the symbols of a syntax tree: in node order (the tree's
/// preorder), every node whose type defines symbols in `language` and one of
/// whose children names it gives one symbol.
pub fn extract_symbols(tree: &SyntaxTree, language: &str) -> (res: Vec<Symbol>)
    ensures
        res@.len() == symbol_places(tree.nodes@, language@, tree.nodes@.len() as int).len(),
        forall|k: int|
            0 <= k < res@.len() ==> symbol_of(
                #[trigger] res@[k],
                tree.nodes@,
                symbol_places(tree.nodes@, language@, tree.nodes@.len() as int)[k],
                language@,
            ),
{
    let nodes = &tree.nodes;
    let mut out: Vec<Symbol> = Vec::new();
    let mut i: usize = 0;
    while i < nodes.len()
        invariant
            i <= nodes.len(),
            out@.len() == symbol_places(nodes@, language@, i as int).len(),
            forall|k: int|
                0 <= k < out@.len() ==> symbol_of(
                    #[trigger] out@[k],
                    nodes@,
                    symbol_places(nodes@, language@, i as int)[k],
                    language@,
                ),
        decreases nodes.len() - i,
    {
        let node = &nodes[i];
        if symbol_type(language, node.node_type.as_str()) {
            match symbol_name(nodes, node) {
                Some(name) => {
                    let sym = Symbol {
                        name,
                        kind: symbol_kind(node.node_type.as_str()),
                        signature: symbol_signature(node.text.as_str()),
                        docstring: symbol_docstring(nodes, node, language),
                        start_line: node.start_line,
                        end_line: node.end_line,
                        text: node.text.clone(),
                    };
                    out.push(sym);
                },
                None => {},
            }
        }
        i = i + 1;
    }
    out
}


// ---------------------------------------------------------------------------
// Content hashes
// ---------------------------------------------------------------------------

/// The SHA-256 digest of `bytes`.
pub uninterp spec fn sha256_digest(bytes: Seq<u8>) -> Seq<u8>;

/// Hashes `bytes` with `sha2::Sha256`; the contract names the digest and
/// states its length, 32 bytes.
#[verifier::external_body]
fn sha256(bytes: &[u8]) -> (d: Vec<u8>)
    ensures
        d@ == sha256_digest(bytes@),
        d@.len() == 32,
{
    sha2::Sha256::digest(bytes).to_vec()
}

/// The lowercase hexadecimal digit of `n` (below 16).
pub open spec fn hex_digit(n: int) -> char {
    if n < 10 {
        (n + ('0' as int)) as char
    } else {
        (n - 10 + ('a' as int)) as char
    }
}

/// The lowercase hexadecimal text of `bytes`: two digits per byte, the high
/// one first.
pub open spec fn hex_of(bytes: Seq<u8>) -> Seq<char>
    decreases bytes.len(),
{
    if bytes.len() == 0 {
        Seq::empty()
    } else {
        hex_of(bytes.drop_last()) + seq![
            hex_digit(bytes.last() as int / 16),
            hex_digit(bytes.last() as int % 16),
        ]
    }
}

fn hex_char(n: u8) -> (c: char)
    requires
        n < 16,
    ensures
        c == hex_digit(n as int),
{
    if n < 10 {
        ((n + 48) as char)
    } else {
        ((n - 10 + 97) as char)
    }
}

/// Lowercase hexadecimal text of bytes (see [`hex_of`]).
pub fn hex_encode(bytes: &[u8]) -> (res: String)
    ensures
        res@ == hex_of(bytes@),
{
    let mut out: Vec<char> = Vec::new();
    let mut i: usize = 0;
    assert(bytes@.take(0) =~= Seq::<u8>::empty());
    while i < bytes.len()
        invariant
            i <= bytes@.len(),
            out@ == hex_of(bytes@.take(i as int)),
        decreases bytes@.len() - i,
    {
        let b = bytes[i];
        let hi = hex_char(b / 16);
        let lo = hex_char(b % 16);
        out.push(hi);
        out.push(lo);
        assert(bytes@.take(i + 1).drop_last() =~= bytes@.take(i as int));
        assert(out@ =~= hex_of(bytes@.take(i + 1)));
        i = i + 1;
    }
    assert(bytes@.take(i as int) =~= bytes@);
    string_of_chars(out)
}

fn string_of_chars(v: Vec<char>) -> (res: String)
    ensures
        res@ == v@,
{
    crate::text::string_of(v.as_slice())
}

/// The hash of a file's content: the SHA-256 of its UTF-8 bytes in
/// lowercase hexadecimal.
pub fn compute_hash(content: &str) -> (res: String)
    ensures
        res@ == hex_of(sha256_digest(vstd::utf8::encode_utf8(content@))),
{
    let d = sha256(content.as_bytes());
    hex_encode(d.as_slice())
}

// ---------------------------------------------------------------------------
// Parsing with tree-sitter
// ---------------------------------------------------------------------------

/// The grammars that cudgel parses with.
#[derive(Debug, Clone, Copy, PartialEq, Eq, Structural)]
pub enum Grammar {
    Python,
    JavaScript,
    TypeScript,
    Rust,
    Go,
    C,
    Cpp,
    Java,
}

/// The grammar of a supported language.
pub open spec fn grammar_of(language: Seq<char>) -> Option<Grammar> {
    if language == "python"@ {
        Some(Grammar::Python)
    } else if language == "javascript"@ {
        Some(Grammar::JavaScript)
    } else if language == "typescript"@ {
        Some(Grammar::TypeScript)
    } else if language == "rust"@ {
        Some(Grammar::Rust)
    } else if language == "go"@ {
        Some(Grammar::Go)
    } else if language == "c"@ {
        Some(Grammar::C)
    } else if language == "cpp"@ {
        Some(Grammar::Cpp)
    } else if language == "java"@ {
        Some(Grammar::Java)
    } else {
        None
    }
}

/// The grammar of `language`; any other language is an
/// `UnsupportedLanguage` error.
pub fn grammar_for(language: &str) -> (res: Result<Grammar>)
    ensures
        match grammar_of(language@) {
            Some(g) => res == Ok::<Grammar, Error>(g),
            None => res matches Err(Error::UnsupportedLanguage(m)) && m@ == language@,
        },
{
    if str_eq(language, "python") {
        Ok(Grammar::Python)
    } else if str_eq(language, "javascript") {
        Ok(Grammar::JavaScript)
    } else if str_eq(language, "typescript") {
        Ok(Grammar::TypeScript)
    } else if str_eq(language, "rust") {
        Ok(Grammar::Rust)
    } else if str_eq(language, "go") {
        Ok(Grammar::Go)
    } else if str_eq(language, "c") {
        Ok(Grammar::C)
    } else if str_eq(language, "cpp") {
        Ok(Grammar::Cpp)
    } else if str_eq(language, "java") {
        Ok(Grammar::Java)
    } else {
        Err(Error::UnsupportedLanguage(String::from_str(language)))
    }
}

#[verifier::external_type_specification]
#[verifier::external_body]
pub struct ExParser(tree_sitter::Parser);

#[verifier::external_type_specification]
#[verifier::external_body]
pub struct ExTree(tree_sitter::Tree);

#[verifier::external_type_specification]
#[verifier::external_body]
pub struct ExTreeCursor<'a>(tree_sitter::TreeCursor<'a>);

/// A node of tree-sitter's tree as the contracts see it: its kind, its start
/// row and column, its end row and column, the place of its parent (-1 for
/// the root), the place just past its last descendant, and its start and
/// end bytes in the parsed text; places count the nodes in the order a
/// `TreeCursor` walks them (preorder, every node named or not).
pub type TsNode = (Seq<char>, usize, usize, usize, usize, int, int, usize, usize);

/// The characters of `source` between two byte offsets of its UTF-8
/// encoding, as `str::get` gives them: empty unless the offsets are in order,
/// within the text and on character boundaries.
pub open spec fn text_between(source: Seq<char>, start: int, end: int) -> Seq<char> {
    let bytes = encode_utf8(source);
    if 0 <= start <= end <= bytes.len() && is_char_boundary(bytes, start) && is_char_boundary(
        bytes,
        end,
    ) {
        decode_utf8(bytes.subrange(start, end))
    } else {
        Seq::empty()
    }
}

/// The place of the parent of node `i`.
pub open spec fn ts_parent(ns: Seq<TsNode>, i: int) -> int {
    ns[i].5
}

/// The place just past the last descendant of node `i`.
pub open spec fn ts_end(ns: Seq<TsNode>, i: int) -> int {
    ns[i].6
}

/// What holds of every tree listed in preorder with parents and subtree
/// ends: the root comes first and spans the list; a parent comes before its
/// children and its subtree holds theirs; a node with descendants has its
/// first child right after it; a node that ends before its parent's subtree
/// is followed by its next sibling.
pub open spec fn preorder_wf(ns: Seq<TsNode>) -> bool {
    &&& ns.len() > 0
    &&& ts_parent(ns, 0) == -1
    &&& ts_end(ns, 0) == ns.len()
    &&& forall|i: int| 0 <= i < ns.len() ==> i < #[trigger] ts_end(ns, i) <= ns.len()
    &&& forall|i: int|
        0 < i < ns.len() ==> 0 <= #[trigger] ts_parent(ns, i) < i && ts_end(ns, i) <= ts_end(
            ns,
            ts_parent(ns, i),
        )
    &&& forall|i: int|
        0 <= i < ns.len() && #[trigger] ts_end(ns, i) > i + 1 ==> ts_parent(ns, i + 1) == i
    &&& forall|i: int|
        0 < i < ns.len() && ts_end(ns, i) < ts_end(ns, #[trigger] ts_parent(ns, i)) ==> ts_parent(
            ns,
            ts_end(ns, i),
        ) == ts_parent(ns, i)
}

/// The nodes of a tree-sitter tree, in preorder.
pub uninterp spec fn tree_nodes(t: tree_sitter::Tree) -> Seq<TsNode>;

/// The nodes of the tree that a cursor walks, in preorder.
pub uninterp spec fn cursor_nodes(c: tree_sitter::TreeCursor) -> Seq<TsNode>;

/// The place of the node under a cursor.
pub uninterp spec fn cursor_at(c: tree_sitter::TreeCursor) -> int;

/// The grammar a parser was given, if any.
pub uninterp spec fn parser_grammar(p: tree_sitter::Parser) -> Option<Grammar>;

/// Whether this build of tree-sitter accepts the grammar (its ABI version
/// is one that `Parser::set_language` takes).
pub uninterp spec fn grammar_accepted(g: Grammar) -> bool;

/// The tree that tree-sitter makes of `content` with grammar `g`, in
/// preorder.
pub uninterp spec fn parsed_tree(g: Grammar, content: Seq<char>) -> Seq<TsNode>;

/// `tree_sitter::Parser::new` followed by `Parser::set_language` with the
/// grammar of `g` (from its grammar crate); the error is the text of the
/// `LanguageError`.  `set_language` succeeds exactly when tree-sitter
/// accepts the grammar's version, which depends on the grammar alone; the
/// parser then has that grammar.
#[verifier::external_body]
fn parser_for(g: Grammar) -> (res: core::result::Result<tree_sitter::Parser, String>)
    ensures
        res is Ok <==> grammar_accepted(g),
        res matches Ok(p) ==> parser_grammar(p) == Some(g),
{
    let language: tree_sitter::Language = match g {
        Grammar::Python => tree_sitter_python::LANGUAGE.into(),
        Grammar::JavaScript => tree_sitter_javascript::LANGUAGE.into(),
        Grammar::TypeScript => tree_sitter_typescript::LANGUAGE_TYPESCRIPT.into(),
        Grammar::Rust => tree_sitter_rust::LANGUAGE.into(),
        Grammar::Go => tree_sitter_go::LANGUAGE.into(),
        Grammar::C => tree_sitter_c::LANGUAGE.into(),
        Grammar::Cpp => tree_sitter_cpp::LANGUAGE.into(),
        Grammar::Java => tree_sitter_java::LANGUAGE.into(),
    };
    let mut parser = tree_sitter::Parser::new();
    parser.set_language(&language).map_err(|e| e.to_string())?;
    Ok(parser)
}

/// `tree_sitter::Parser::parse` of `content`, with no earlier tree.  It
/// gives no tree only when the parser has no grammar, times out or is
/// cancelled; no timeout or cancellation flag is ever set here.  The tree
/// is the one tree-sitter makes of the content with the parser's grammar.
#[verifier::external_body]
fn parse_source(parser: &mut tree_sitter::Parser, content: &str) -> (res: Option<tree_sitter::Tree>)
    ensures
        parser_grammar(*final(parser)) == parser_grammar(*old(parser)),
        parser_grammar(*old(parser)) matches Some(g) ==> (res matches Some(t) && tree_nodes(t)
            == parsed_tree(g, content@)),
        res matches Some(t) ==> preorder_wf(tree_nodes(t)),
{
    parser.parse(content, None)
}

/// `tree_sitter::Tree::walk`: a cursor on the root node.
#[verifier::external_body]
fn walk<'a>(tree: &'a tree_sitter::Tree) -> (c: tree_sitter::TreeCursor<'a>)
    ensures
        cursor_nodes(c) == tree_nodes(*tree),
        cursor_at(c) == 0,
{
    tree.walk()
}

/// `TreeCursor::goto_first_child`: moves to the first child, the node right
/// after the current one, when the current node has descendants.
#[verifier::external_body]
fn goto_first_child(c: &mut tree_sitter::TreeCursor) -> (moved: bool)
    ensures
        cursor_nodes(*final(c)) == cursor_nodes(*old(c)),
        ({
            let ns = cursor_nodes(*old(c));
            let i = cursor_at(*old(c));
            preorder_wf(ns) && 0 <= i < ns.len() ==> moved == (ts_end(ns, i) > i + 1) && cursor_at(
                *final(c),
            ) == if moved {
                i + 1
            } else {
                i
            }
        }),
{
    c.goto_first_child()
}

/// `TreeCursor::goto_next_sibling`: moves to the next sibling, the node
/// right after the current node's subtree, when it ends before its parent's.
/// The root has no sibling.
#[verifier::external_body]
fn goto_next_sibling(c: &mut tree_sitter::TreeCursor) -> (moved: bool)
    ensures
        cursor_nodes(*final(c)) == cursor_nodes(*old(c)),
        ({
            let ns = cursor_nodes(*old(c));
            let i = cursor_at(*old(c));
            preorder_wf(ns) && 0 <= i < ns.len() ==> moved == (ts_parent(ns, i) >= 0 && ts_end(ns, i)
                < ts_end(ns, ts_parent(ns, i))) && cursor_at(*final(c)) == if moved {
                ts_end(ns, i)
            } else {
                i
            }
        }),
{
    c.goto_next_sibling()
}

/// `TreeCursor::goto_parent`: moves to the parent, which every node but the
/// root has.
#[verifier::external_body]
fn goto_parent(c: &mut tree_sitter::TreeCursor) -> (moved: bool)
    ensures
        cursor_nodes(*final(c)) == cursor_nodes(*old(c)),
        ({
            let ns = cursor_nodes(*old(c));
            let i = cursor_at(*old(c));
            preorder_wf(ns) && 0 <= i < ns.len() ==> moved == (ts_parent(ns, i) >= 0) && cursor_at(
                *final(c),
            ) == if moved {
                ts_parent(ns, i)
            } else {
                i
            }
        }),
{
    c.goto_parent()
}

/// The node under the cursor as a node without children: its kind, its
/// start and end rows and columns, and the text of `source` between its
/// start and end bytes, as `str::get` takes it (empty when those bytes do
/// not bound text of `source`, as when `source` is not the text that was
/// parsed).
#[verifier::external_body]
fn current_node(c: &tree_sitter::TreeCursor, source: &str) -> (n: ASTNode)
    ensures
        n.children@.len() == 0,
        ({
            let ns = cursor_nodes(*c);
            let i = cursor_at(*c);
            0 <= i < ns.len() ==> n.node_type@ == ns[i].0 && n.start_line == ns[i].1 && n.start_column
                == ns[i].2 && n.end_line == ns[i].3 && n.end_column == ns[i].4 && n.text@ == text_between(
                source@,
                ns[i].7 as int,
                ns[i].8 as int,
            )
        }),
{
    let node = c.node();
    let (start, end) = (node.start_position(), node.end_position());
    ASTNode {
        node_type: node.kind().to_string(),
        text: source.get(node.start_byte()..node.end_byte()).unwrap_or("").to_string(),
        start_line: start.row,
        start_column: start.column,
        end_line: end.row,
        end_column: end.column,
        children: Vec::new(),
    }
}

impl SyntaxTree {
    /// The tree has a root, and every child comes after its parent in the
    /// node list.
    pub open spec fn wf(&self) -> bool {
        &&& self.nodes@.len() > 0
        &&& forall|i: int, j: int|
            0 <= i < self.nodes@.len() && 0 <= j < self.nodes@[i].children@.len() ==> i
                < #[trigger] self.nodes@[i].children@[j] < self.nodes@.len()
    }
}

/// Every child of the first `n` nodes comes after its parent and exists.
pub open spec fn linked(nodes: Seq<ASTNode>) -> bool {
    forall|i: int, j: int|
        0 <= i < nodes.len() && 0 <= j < nodes[i].children@.len() ==> i
            < #[trigger] nodes[i].children@[j] < nodes.len()
}

/// `path` holds the ancestors of node `cur`, root first: the root, then
/// each one's child down to `cur`'s parent (empty when `cur` is the root).
pub open spec fn ancestor_path(ns: Seq<TsNode>, path: Seq<usize>, cur: int) -> bool {
    &&& (path.len() == 0 <==> cur == 0)
    &&& forall|m: int| 0 <= m < path.len() ==> path[m] < cur
    &&& forall|m1: int, m2: int| 0 <= m1 < m2 < path.len() ==> path[m1] < path[m2]
    &&& path.len() > 0 ==> path[0] == 0 && path.last() == ts_parent(ns, cur)
    &&& forall|m: int| 0 < m < path.len() ==> path[m - 1] == ts_parent(ns, path[m] as int)
}

/// `t` lists the nodes of `ns` in the same order, with their kinds, rows,
/// columns and texts in `source`, each node's children being the nodes whose
/// parent it is.
pub open spec fn flattening_of(t: SyntaxTree, ns: Seq<TsNode>, source: Seq<char>) -> bool {
    &&& t.nodes@.len() == ns.len()
    &&& forall|k: int| 0 <= k < ns.len() ==> #[trigger] node_agrees(t.nodes@[k], ns[k], source)
    &&& forall|i: int, j: int|
        0 <= i < ns.len() && 0 <= j < ns.len() ==> (#[trigger] t.nodes@[i].children@.contains(j as usize)
            <==> (j > 0 && ts_parent(ns, j) == i))
}

/// `n` has the kind, rows, columns and text (in `source`) of `tn`.
pub open spec fn node_agrees(n: ASTNode, tn: TsNode, source: Seq<char>) -> bool {
    &&& n.text@ == text_between(source, tn.7 as int, tn.8 as int)
    &&& n.node_type@ == tn.0
    &&& n.start_line == tn.1
    &&& n.start_column == tn.2
    &&& n.end_line == tn.3
    &&& n.end_column == tn.4
}

/// Moves the cursor to the node just past the current node's subtree, the
/// next in preorder that is not below it, popping from `path` the nodes it
/// leaves; false when the subtree reaches the end of the tree.
fn next_in_preorder(cursor: &mut tree_sitter::TreeCursor, path: &mut Vec<usize>) -> (moved: bool)
    requires
        preorder_wf(cursor_nodes(*old(cursor))),
        0 <= cursor_at(*old(cursor)) < cursor_nodes(*old(cursor)).len(),
        ancestor_path(cursor_nodes(*old(cursor)), old(path)@, cursor_at(*old(cursor))),
    ensures
        final(path)@.len() <= old(path)@.len(),
        forall|j: int| 0 <= j < final(path)@.len() ==> final(path)@[j] == old(path)@[j],
        cursor_nodes(*final(cursor)) == cursor_nodes(*old(cursor)),
        moved == (ts_end(cursor_nodes(*old(cursor)), cursor_at(*old(cursor))) < cursor_nodes(
            *old(cursor),
        ).len()),
        moved ==> cursor_at(*final(cursor)) == ts_end(cursor_nodes(*old(cursor)), cursor_at(*old(cursor)))
            && ancestor_path(cursor_nodes(*old(cursor)), final(path)@, cursor_at(*final(cursor))),
{
    let ghost ns = cursor_nodes(*cursor);
    let ghost e = ts_end(ns, cursor_at(*cursor));
    loop
        invariant
            path@.len() <= old(path)@.len(),
            forall|j: int| 0 <= j < path@.len() ==> path@[j] == old(path)@[j],
            ns == cursor_nodes(*old(cursor)),
            e == ts_end(ns, cursor_at(*old(cursor))),
            preorder_wf(ns),
            cursor_nodes(*cursor) == ns,
            0 <= cursor_at(*cursor) < ns.len(),
            ts_end(ns, cursor_at(*cursor)) == e,
            ancestor_path(ns, path@, cursor_at(*cursor)),
        decreases path@.len(),
    {
        let ghost cur = cursor_at(*cursor);
        if goto_next_sibling(cursor) {
            assert(ts_parent(ns, e) == ts_parent(ns, cur));
            return true;
        }
        if path.len() == 0 {
            return false;
        }
        assert(cur > 0);
        assert(ts_end(ns, cur) <= ts_end(ns, ts_parent(ns, cur)));
        if !goto_parent(cursor) {
            return false;
        }
        let ghost before = path@;
        path.pop();
        proof {
            let n = before.len();
            assert(path@ =~= before.drop_last());
            if n >= 2 {
                assert(before[n - 2] == ts_parent(ns, before[n - 1] as int));
                assert(before[n - 1] > 0);
            }
        }
    }
}

/// The first nodes of `ns`, collected: linked, in agreement with `ns`, each
/// holding as children the collected nodes whose parent it is.
#[verifier::opaque]
pub open spec fn collected(nodes: Seq<ASTNode>, ns: Seq<TsNode>, source: Seq<char>) -> bool {
    &&& nodes.len() <= ns.len()
    &&& linked(nodes)
    &&& forall|k: int| 0 <= k < nodes.len() ==> #[trigger] node_agrees(nodes[k], ns[k], source)
    &&& forall|i: int, j: int|
        0 <= i < nodes.len() && 0 <= j < nodes.len() ==> (#[trigger] nodes[i].children@.contains(
            j as usize,
        ) <==> (0 < j && ts_parent(ns, j) == i))
}

/// Appends the next node of the walk and lists it among its parent's
/// children.
#[verifier::spinoff_prover]
#[verifier::rlimit(50)]
fn add_node(
    nodes: &mut Vec<ASTNode>,
    parent: Option<usize>,
    node: ASTNode,
    Ghost(ns): Ghost<Seq<TsNode>>,
    Ghost(src): Ghost<Seq<char>>,
)
    requires
        forall|j: int| 0 < j < ns.len() ==> #[trigger] ts_parent(ns, j) < j,
        collected(old(nodes)@, ns, src),
        old(nodes)@.len() < ns.len(),
        node.children@.len() == 0,
        node_agrees(node, ns[old(nodes)@.len() as int], src),
        parent is None ==> old(nodes)@.len() == 0,
        parent matches Some(p) ==> p < old(nodes)@.len() && ts_parent(ns, old(nodes)@.len() as int) == p,
        old(nodes)@.len() == 0 ==> parent is None,
    ensures
        final(nodes)@.len() == old(nodes)@.len() + 1,
        collected(final(nodes)@, ns, src),
{
    reveal(collected);
    let k = nodes.len();
    let ghost before = nodes@;
    nodes.push(node);
    assert(node_agrees(nodes@[k as int], ns[k as int], src));
    assert(linked(nodes@)) by {
        assert forall|i: int, j: int|
            0 <= i < nodes@.len() && 0 <= j < nodes@[i].children@.len() implies i
            < #[trigger] nodes@[i].children@[j] < nodes@.len() by {
            assert(i < k);
            assert(nodes@[i] == before[i]);
        }
    }
    match parent {
        None => {
            assert forall|i: int, j: int|
                0 <= i < nodes@.len() && 0 <= j < nodes@.len() implies (#[trigger] nodes@[i].children@.contains(
                j as usize,
            ) <==> (0 < j && ts_parent(ns, j) == i)) by {}
            assert forall|k2: int| 0 <= k2 < nodes@.len() implies #[trigger] node_agrees(nodes@[k2], ns[k2], src) by {}
        },
        Some(p) => {
            let ghost mid = nodes@;
            nodes[p].children.push(k);
            assert(linked(nodes@)) by {
                assert forall|i: int, j: int|
                    0 <= i < nodes@.len() && 0 <= j < nodes@[i].children@.len() implies i
                    < #[trigger] nodes@[i].children@[j] < nodes@.len() by {
                    if i != p {
                        assert(nodes@[i] == mid[i]);
                    } else if j < mid[i].children@.len() {
                        assert(nodes@[i].children@[j] == mid[i].children@[j]);
                    }
                }
            }
            assert forall|i: int, j: int|
                0 <= i < nodes@.len() && 0 <= j < nodes@.len() implies (#[trigger] nodes@[i].children@.contains(
                j as usize,
            ) <==> (0 < j && ts_parent(ns, j) == i)) by {
                if i != p {
                    assert(nodes@[i] == mid[i]);
                    if i < k {
                        assert(mid[i] == before[i]);
                        if j < k {
                            assert(before[i].children@.contains(j as usize) <==> (0 < j && ts_parent(ns, j)
                                == i));
                        } else {
                            assert(!before[i].children@.contains(j as usize)) by {
                                if before[i].children@.contains(j as usize) {
                                    let x = choose|x: int| 0 <= x < before[i].children@.len() && before[i].children@[x] == j as usize;
                                    assert(linked(before));
                                }
                            }
                        }
                        if j == k {
                            assert(ts_parent(ns, j) == p);
                        }
                    } else {
                        assert(i == k);
                        assert(mid[i] == node);
                        assert(nodes@[i].children@.len() == 0);
                        assert(!nodes@[i].children@.contains(j as usize));
                        if 0 < j < nodes@.len() {
                            assert(ts_parent(ns, j) < j);
                        }
                    }
                } else {
                    assert(nodes@[i].children@ == mid[i].children@.push(k));
                    assert(mid[i] == before[i]);
                    let c = before[i].children@;
                    let d = nodes@[i].children@;
                    assert(d.contains(j as usize) <==> (c.contains(j as usize) || j == k)) by {
                        if c.contains(j as usize) {
                            let x = choose|x: int| 0 <= x < c.len() && c[x] == j as usize;
                            assert(d[x] == j as usize);
                        }
                        if j == k {
                            assert(d[c.len() as int] == k);
                        }
                        if d.contains(j as usize) {
                            let x = choose|x: int| 0 <= x < d.len() && d[x] == j as usize;
                            if x < c.len() {
                                assert(c[x] == j as usize);
                            }
                        }
                    }
                    if j < k {
                        assert(before[i].children@.contains(j as usize) <==> (0 < j && ts_parent(ns, j)
                            == i));
                    } else {
                        assert(!before[i].children@.contains(j as usize)) by {
                            if before[i].children@.contains(j as usize) {
                                let x = choose|x: int| 0 <= x < before[i].children@.len() && before[i].children@[x] == j as usize;
                                assert(linked(before));
                            }
                        }
                        assert(nodes@[i].children@[mid[i].children@.len() as int] == k);
                    }
                }
            }
            assert forall|k2: int| 0 <= k2 < nodes@.len() implies #[trigger] node_agrees(nodes@[k2], ns[k2], src) by {
                assert(nodes@[k2].node_type == mid[k2].node_type);
                assert(nodes@[k2].start_line == mid[k2].start_line);
                assert(nodes@[k2].end_line == mid[k2].end_line);
                assert(nodes@[k2].start_column == mid[k2].start_column);
                assert(nodes@[k2].end_column == mid[k2].end_column);
                assert(nodes@[k2].text == mid[k2].text);
                assert(node_agrees(mid[k2], ns[k2], src));
            }
        },
    }
}

/// The syntax tree that `cursor` walks in preorder from the root: the
/// flattening of the tree, or none when it has more nodes than a `Vec`
/// holds.
fn collect_nodes(cursor: &mut tree_sitter::TreeCursor, source: &str) -> (res: Option<SyntaxTree>)
    requires
        preorder_wf(cursor_nodes(*old(cursor))),
        cursor_at(*old(cursor)) == 0,
    ensures
        res matches Some(t) ==> t.wf() && flattening_of(t, cursor_nodes(*old(cursor)), source@),
        res is None ==> cursor_nodes(*old(cursor)).len() > usize::MAX,
{
    let ghost ns = cursor_nodes(*cursor);
    let mut nodes: Vec<ASTNode> = Vec::new();
    let mut path: Vec<usize> = Vec::new();
    proof {
        reveal(collected);
    }
    loop
        invariant
            ns == cursor_nodes(*old(cursor)),
            preorder_wf(ns),
            cursor_nodes(*cursor) == ns,
            cursor_at(*cursor) == nodes@.len(),
            nodes@.len() < ns.len(),
            ancestor_path(ns, path@, nodes@.len() as int),
            collected(nodes@, ns, source@),
        decreases ns.len() - nodes@.len(),
    {
        if nodes.len() == usize::MAX {
            return None;
        }
        let k = nodes.len();
        let node = current_node(cursor, source);
        let parent = if path.len() > 0 {
            Some(path[path.len() - 1])
        } else {
            None
        };
        add_node(&mut nodes, parent, node, Ghost(ns), Ghost(source@));
        if goto_first_child(cursor) {
            let ghost old_path = path@;
            path.push(k);
            proof {
                assert(ts_parent(ns, k + 1) == k);
                assert(path@ == old_path.push(k));
                assert(ancestor_path(ns, path@, k + 1));
            }
        } else {
            assert(ts_end(ns, k as int) == k + 1);
            if !next_in_preorder(cursor, &mut path) {
                proof {
                    reveal(collected);
                }
                assert(nodes@.len() > 0);
                return Some(SyntaxTree { nodes });
            }
        }
    }
}

/// How `Debug` prints a string: in double quotes, with the characters that
/// need it escaped.
pub uninterp spec fn str_debug(s: Seq<char>) -> Seq<char>;

/// `format!("{:?}", s)`; the contract names the result only.
#[verifier::external_body]
fn debug_text(s: &str) -> (res: String)
    ensures
        res@ == str_debug(s@),
{
    format!("{:?}", s)
}

/// Parses source files, keeping one tree-sitter parser per grammar.
pub struct CodeParser {
    parsers: Vec<(Grammar, tree_sitter::Parser)>,
}

impl CodeParser {
    /// The grammars loaded so far, in the order they were first needed.
    pub closed spec fn grammars(&self) -> Seq<Grammar> {
        self.parsers@.map_values(|p: (Grammar, tree_sitter::Parser)| p.0)
    }

    /// Every cached parser has the grammar it is cached under.
    #[verifier::type_invariant]
    spec fn wf(&self) -> bool {
        forall|i: int|
            0 <= i < self.parsers@.len() ==> parser_grammar(#[trigger] self.parsers@[i].1) == Some(
                self.parsers@[i].0,
            )
    }

    /// A parser with no grammar loaded yet.
    pub fn new() -> (p: CodeParser)
        ensures
            p.grammars() == Seq::<Grammar>::empty(),
    {
        let p = CodeParser { parsers: Vec::new() };
        assert(p.grammars() =~= Seq::<Grammar>::empty());
        p
    }

    /// The language of the file at `path` (see [`detect_language`]).
    pub fn detect_language(path: &str) -> (res: Option<String>)
        ensures
            opt_view(res) == detected_language(path@),
    {
        crate::parser::detect_language(path)
    }

    /// The place of the parser for `g` in the cache, loading the grammar the
    /// first time; the error is the text of tree-sitter's `LanguageError`.
    /// A grammar already loaded is found without loading anything; a new one
    /// is appended to the cache when tree-sitter accepts it, and the cache is
    /// left as it was when it does not.
    fn parser_index(&mut self, g: Grammar) -> (res: core::result::Result<usize, String>)
        ensures
            old(self).grammars().contains(g) || grammar_accepted(g) ==> res is Ok,
            res matches Ok(i) ==> i < final(self).parsers@.len() && final(self).grammars()[i as int] == g,
            old(self).grammars().contains(g) ==> (res matches Ok(i) && old(self).grammars()[i as int]
                == g && (forall|j: int| 0 <= j < i ==> old(self).grammars()[j] != g)
                && final(self).parsers@ == old(self).parsers@),
            !old(self).grammars().contains(g) ==> match res {
                Ok(i) => i == old(self).parsers@.len() && final(self).grammars() == old(
                    self,
                ).grammars().push(g) && final(self).parsers@.take(i as int) == old(self).parsers@,
                Err(_) => final(self).parsers@ == old(self).parsers@,
            },
    {
        proof {
            use_type_invariant(&*self);
        }
        let ghost gs = self.grammars();
        let mut i: usize = 0;
        while i < self.parsers.len()
            invariant
                i <= self.parsers@.len(),
                *self == *old(self),
                gs == self.grammars(),
                gs.len() == self.parsers@.len(),
                forall|j: int| 0 <= j < i ==> gs[j] != g,
            decreases self.parsers@.len() - i,
        {
            if self.parsers[i].0 == g {
                assert(gs[i as int] == g);
                return Ok(i);
            }
            i = i + 1;
        }
        assert(!gs.contains(g));
        let parser = parser_for(g)?;
        let ghost before = self.parsers@;
        let mut parsers = Vec::new();
        std::mem::swap(&mut parsers, &mut self.parsers);
        parsers.push((g, parser));
        assert forall|j: int| 0 <= j < parsers@.len() implies parser_grammar(#[trigger] parsers@[j].1) == Some(
            parsers@[j].0,
        ) by {
            if j < before.len() {
                assert(parsers@[j] == before[j]);
            }
        }
        self.parsers = parsers;
        assert(self.grammars() =~= gs.push(g));
        assert(self.parsers@.take(before.len() as int) =~= before);
        Ok(self.parsers.len() - 1)
    }

    /// Parses a source file: its language from its path and its syntax tree
    /// from tree-sitter; gives the tree and the language's name.  A path of no known
    /// language is a `Parse` error; so are a grammar that tree-sitter refuses
    /// and a parse that tree-sitter gives up.
    pub fn parse_file(&mut self, path: &str, content: &str) -> (res: Result<(SyntaxTree, String)>)
        ensures
            detected_language(path@) is None ==> (res matches Err(Error::Parse(m)) && m@
                == "Cannot detect language for "@ + str_debug(path@)),
            detected_language(path@) matches Some(l) ==> (grammar_of(l) matches Some(g) && (
            grammar_accepted(g) && parsed_tree(g, content@).len() <= usize::MAX ==> res is Ok)),
            res matches Ok((t, lang)) ==> t.wf() && detected_language(path@) == Some(lang@) && (
            grammar_of(lang@) matches Some(g) && flattening_of(t, parsed_tree(g, content@), content@)),
    {
        let language = match crate::parser::detect_language(path) {
            Some(l) => l,
            None => {
                let d = debug_text(path);
                return Err(Error::Parse(cat("Cannot detect language for ", d.as_str())));
            },
        };
        proof {
            law_detected_languages_are_supported(path@);
        }
        let g = grammar_for(language.as_str())?;
        let i = match self.parser_index(g) {
            Ok(i) => i,
            Err(e) => {
                return Err(Error::Parse(e));
            },
        };
        proof {
            use_type_invariant(&*self);
        }
        let ghost cache = self.parsers@;
        assert(parser_grammar(cache[i as int].1) == Some(g));
        let mut parsers = Vec::new();
        std::mem::swap(&mut parsers, &mut self.parsers);
        let parsed = parse_source(&mut parsers[i].1, content);
        assert forall|j: int| 0 <= j < parsers@.len() implies parser_grammar(#[trigger] parsers@[j].1) == Some(
            parsers@[j].0,
        ) by {
            if j != i {
                assert(parsers@[j] == cache[j]);
            }
        }
        self.parsers = parsers;
        let tree = match parsed {
            Some(t) => t,
            None => {
                return Err(Error::Parse(String::from_str("Failed to parse file")));
            },
        };
        let mut cursor = walk(&tree);
        let root = match collect_nodes(&mut cursor, content) {
            Some(r) => r,
            None => {
                return Err(Error::Parse(String::from_str("Failed to parse file")));
            },
        };
        Ok((root, language))
    }

    /// The symbols of a syntax tree (see [`extract_symbols`]).
    pub fn extract_symbols(&self, ast: &SyntaxTree, language: &str) -> (res: Vec<Symbol>)
        ensures
            res@.len() == symbol_places(ast.nodes@, language@, ast.nodes@.len() as int).len(),
            forall|k: int|
                0 <= k < res@.len() ==> symbol_of(
                    #[trigger] res@[k],
                    ast.nodes@,
                    symbol_places(ast.nodes@, language@, ast.nodes@.len() as int)[k],
                    language@,
                ),
    {
        crate::parser::extract_symbols(ast, language)
    }
}

} // verus!
