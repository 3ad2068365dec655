//! Prompt templates for summaries, and how a template is filled in.
use vstd::prelude::*;
use crate::text::{cat3, replace, replace_str};

verus! {

/// Prompt template for repository-level architecture summaries.
///
/// Variables: name, languages, modules, file_count, entity_count, patterns
pub const REPOSITORY_PROMPT: &'static str = r#"You are a technical documentation expert analyzing a code repository.

Repository Information:
- Name: {name}
- Languages: {languages}
- Top Modules: {modules}
- Files: {file_count}
- Entities: {entity_count}
- Key Patterns: {patterns}

Task: Generate a concise, technical summary (3-5 sentences) of this repository's architecture.

Focus on:
1. Primary purpose and domain
2. Main architectural patterns (e.g., MVC, layered, microservices)
3. Key technologies and frameworks
4. Overall organization strategy

Output only the summary text, no additional formatting or metadata."#;

/// Prompt template for component (module) summaries.
///
/// Variables: name, type, file_count, dependencies, exported_entities, patterns
pub const COMPONENT_PROMPT: &'static str = r#"You are a technical documentation expert analyzing a code component.

Component Information:
- Name: {name}
- Type: {type}
- Files: {file_count}
- Dependencies: {dependencies}
- Public API: {exported_entities}
- Patterns: {patterns}

Task: Generate a concise summary (2-3 sentences) of this component's purpose and role.

Focus on:
1. Primary responsibility
2. How it fits into the larger system
3. Key APIs or interfaces it exposes

Output only the summary text, no additional formatting or metadata."#;

/// Prompt template for entity (class, function) summaries.
///
/// Variables: name, type, file_path, signature, dependencies, visibility, code_snippet
pub const ENTITY_PROMPT: &'static str = r#"You are a technical documentation expert analyzing a code entity.

Entity Information:
- Name: {name}
- Type: {type}
- Location: {file_path}
- Signature: {signature}
- Dependencies: {dependencies}
- Visibility: {visibility}

Code:
```
{code_snippet}
```

Task: Generate a single-sentence summary of what this {type} does.

Focus on:
1. Primary purpose or responsibility
2. Key inputs and outputs (if applicable)
3. Important side effects or state changes

Output only the summary text, no additional formatting or metadata."#;

/// Prompt template for the analysis of a pattern across entities.
///
/// Variables: pattern, entities
pub const PATTERN_ANALYSIS_PROMPT: &'static str = r#"You are a technical documentation expert analyzing code patterns.

Pattern: {pattern}
Entities using this pattern: {entities}

Task: Generate a 2-3 sentence explanation of how this pattern is used across these entities.

Focus on:
1. Common usage patterns or idioms
2. Consistency or variations in implementation
3. Architectural implications

Output only the analysis text, no additional formatting or metadata."#;

/// The placeholder for `key`: the key in braces.
pub open spec fn placeholder(key: Seq<char>) -> Seq<char> {
    seq!['{'] + key + seq!['}']
}

/// `template` with the placeholder of each key replaced by its value, the
/// pairs taken in order.
pub open spec fn filled(template: Seq<char>, values: Seq<(String, String)>) -> Seq<char>
    decreases values.len(),
{
    if values.len() == 0 {
        template
    } else {
        let last = values.last();
        replace(filled(template, values.drop_last()), placeholder(last.0@), last.1@)
    }
}

/// Fills a prompt template: every `{key}` is replaced by the value of `key`,
/// for each pair of `values` in turn.
pub fn fill_template(template: &str, values: &Vec<(String, String)>) -> (res: String)
    ensures
        res@ == filled(template@, values@),
{
    let mut result = String::from_str(template);
    let mut i: usize = 0;
    proof {
        reveal_strlit("{");
        reveal_strlit("}");
    }
    assert(values@.take(0) =~= Seq::<(String, String)>::empty());
    while i < values.len()
        invariant
            i <= values.len(),
            result@ == filled(template@, values@.take(i as int)),
        decreases values.len() - i,
    {
        proof {
            reveal_strlit("{");
            reveal_strlit("}");
        }
        let (key, value) = &values[i];
        let p = cat3("{", key.as_str(), "}");
        assert(p@ =~= placeholder(key@));
        result = replace_str(result.as_str(), p.as_str(), value.as_str());
        assert(values@.take(i + 1).drop_last() =~= values@.take(i as int));
        i = i + 1;
    }
    assert(values@.take(i as int) =~= values@);
    result
}

} // verus!
