use xxhash_rust::xxh3::xxh3_64;
use cudgel::embeddings::fallback::{feature_counts, split_identifier, split_words, tokenize_code, HASH_DIMENSION};
use cudgel::embeddings::onnx::OnnxTokenizer;
use cudgel::embeddings::{strategy_from_name, StrategyKind};
use cudgel::config::Config;
use cudgel::error::Error;

#[test]
fn test_split_identifier_camelcase() {
    let result = split_identifier("getUserName");
    assert_eq!(result, vec!["get", "User", "Name"]);
}

#[test]
fn test_split_identifier_snakecase() {
    let result = split_identifier("get_user_name");
    assert_eq!(result, vec!["get", "user", "name"]);
}

#[test]
fn test_tokenize_code() {
    let result = tokenize_code("fn getUserName() -> String");
    assert!(result.contains(&"fn".to_string()));
    assert!(result.contains(&"get".to_string()));
    assert!(result.contains(&"user".to_string()));
    assert!(result.contains(&"name".to_string()));
    assert_eq!(result, vec!["fn", "get", "user", "name", "->", "string"]);
}

#[test]
fn identifiers_without_parts_stay_whole() {
    assert_eq!(split_identifier("->"), vec!["->"]);
    assert_eq!(split_identifier("HTTPServer"), vec!["HTTPServer"]);
    assert_eq!(split_identifier("parseJSON2x"), vec!["parse", "JSON2x"]);
    assert_eq!(split_identifier("a.b"), vec!["a", "b"]);
}

#[test]
fn words_are_separated_by_white_space() {
    assert_eq!(split_words("  a  b\tc\n"), vec!["a", "b", "c"]);
    assert!(split_words(" \n ").is_empty());
}

#[test]
fn feature_counts_are_deterministic_and_signed() {
    let tokens = vec!["get".to_string(), "user".to_string(), "get".to_string()];
    let a = feature_counts(&tokens);
    let b = feature_counts(&tokens);
    assert_eq!(a.len(), HASH_DIMENSION);
    assert_eq!(a, b);
    let total: i64 = a.iter().map(|c| c.abs()).sum();
    assert!(total >= 1 && total <= 3);
    assert!(feature_counts(&vec![]).iter().all(|&c| c == 0));
}

#[test]
fn strategies_by_name() {
    assert_eq!(strategy_from_name("onnx").unwrap(), StrategyKind::Onnx);
    assert_eq!(strategy_from_name("fallback").unwrap(), StrategyKind::Fallback);
    assert!(matches!(strategy_from_name("bert"), Err(Error::InvalidTokenizerStrategy(m)) if m == "bert"));
    assert_eq!(StrategyKind::Fallback.name(), "fallback");
}

#[test]
fn onnx_is_not_available_yet() {
    let config = Config::local("u".to_string(), std::path::PathBuf::from("/m"));
    match OnnxTokenizer::new(&config) {
        Err(Error::Embedding(m)) => assert_eq!(
            m,
            "ONNX tokenizer not yet refactored. This will be implemented in Phase 4."
        ),
        _ => panic!("expected an embedding error"),
    }
}

#[test]
fn feature_counts_follow_the_xxh3_hash_trick() {
    let tokens = vec!["get".to_string(), "user".to_string(), "get".to_string()];
    let mut expected = vec![0i64; HASH_DIMENSION];
    for t in &tokens {
        let idx = (xxh3_64(t.as_bytes()) % HASH_DIMENSION as u64) as usize;
        let sign = if xxh3_64(format!("sign_{}", t).as_bytes()) & 1 == 0 { 1 } else { -1 };
        expected[idx] += sign;
    }
    assert_eq!(feature_counts(&tokens), expected);
}
