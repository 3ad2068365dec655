use cudgel::config::{
    cudgel_cache_dir, cudgel_config_dir, cudgel_data_dir, cudgel_state_dir, xdg_state_home, Config,
    DatabaseConfig, EmbeddingConfig, IndexingConfig,
};
use cudgel::error::Error;
use std::path::PathBuf;

fn config_with(host: &str, port: u16, dimension: usize, batch_size: usize) -> Config {
    Config {
        database: DatabaseConfig {
            host: host.to_string(),
            port,
            database: "cudgel".to_string(),
            user: "test".to_string(),
            password: "test".to_string(),
        },
        embedding: EmbeddingConfig {
            model_path: PathBuf::from("./models"),
            dimension,
            strategy: "onnx".to_string(),
        },
        indexing: IndexingConfig {
            batch_size,
            max_file_size: 1024 * 1024,
        },
    }
}

#[test]
fn test_database_url_formatting() {
    let config = Config {
        database: DatabaseConfig {
            host: "localhost".to_string(),
            port: 54321,
            database: "cudgel".to_string(),
            user: "testuser".to_string(),
            password: "testpass".to_string(),
        },
        embedding: EmbeddingConfig {
            model_path: PathBuf::from("/tmp/models"),
            dimension: 384,
            strategy: "onnx".to_string(),
        },
        indexing: IndexingConfig {
            batch_size: 100,
            max_file_size: 1024 * 1024,
        },
    };

    let url = config.database_url();
    assert_eq!(
        url,
        "host=localhost port=54321 dbname=cudgel user=testuser password=testpass"
    );
}

#[test]
fn test_database_url_special_characters() {
    let config = Config {
        database: DatabaseConfig {
            host: "db.example.com".to_string(),
            port: 5432,
            database: "my-database".to_string(),
            user: "user@domain".to_string(),
            password: "p@ssw0rd!".to_string(),
        },
        embedding: EmbeddingConfig {
            model_path: PathBuf::from("/tmp/models"),
            dimension: 384,
            strategy: "onnx".to_string(),
        },
        indexing: IndexingConfig {
            batch_size: 100,
            max_file_size: 1024 * 1024,
        },
    };

    let url = config.database_url();
    assert_eq!(
        url,
        "host=db.example.com port=5432 dbname=my-database user=user@domain password=p@ssw0rd!"
    );
}

#[test]
fn test_config_validation_invalid_port() {
    let config = config_with("localhost", 0, 384, 100);
    assert!(config.validate().is_err());
}

#[test]
fn test_config_validation_empty_host() {
    let config = config_with("", 5432, 384, 100);
    assert!(config.validate().is_err());
}

#[test]
fn test_config_validation_invalid_dimension() {
    let config = config_with("localhost", 5432, 0, 100);
    assert!(config.validate().is_err());
}

#[test]
fn test_config_validation_invalid_batch_size() {
    let config = config_with("localhost", 5432, 384, 0);
    assert!(config.validate().is_err());

    let config = config_with("localhost", 5432, 384, 20000);
    assert!(config.validate().is_err());
}

#[test]
fn config_validation_messages() {
    let expect = |c: Config, msg: &str| match c.validate() {
        Err(Error::Config(m)) => assert_eq!(m, msg),
        _ => panic!("expected a configuration error"),
    };
    expect(config_with("  ", 5432, 384, 100), "Database host cannot be empty");
    expect(
        config_with("localhost", 0, 384, 100),
        "Database port cannot be 0. Must be between 1 and 65535",
    );
    expect(config_with("localhost", 5432, 0, 100), "Embedding dimension must be positive");
    expect(
        config_with("localhost", 5432, 5000, 100),
        "Embedding dimension 5000 is too large. Maximum is 4096",
    );
    expect(config_with("localhost", 5432, 384, 0), "Batch size must be positive");
    expect(
        config_with("localhost", 5432, 384, 20000),
        "Batch size 20000 is too large. Maximum is 10000",
    );
    let mut c = config_with("localhost", 5432, 384, 100);
    c.indexing.max_file_size = 0;
    expect(c, "Max file size must be positive");
    let mut c = config_with("localhost", 5432, 384, 100);
    c.indexing.max_file_size = 200 * 1024 * 1024;
    expect(
        c,
        "Max file size 209715200 bytes is too large. Maximum is 104857600 bytes (100MB)",
    );
    assert!(config_with("localhost", 5432, 4096, 10000).validate().is_ok());
}

#[test]
fn config_local_defaults_are_valid() {
    let c = Config::local("alice".to_string(), PathBuf::from("/m"));
    assert_eq!(c.database.host, "localhost");
    assert_eq!(c.database.port, 54321);
    assert_eq!(c.database.user, "alice");
    assert_eq!(c.embedding.dimension, 384);
    assert_eq!(c.embedding.strategy, "onnx");
    assert!(c.validate().is_ok());
    assert_eq!(
        c.database_url(),
        "host=localhost port=54321 dbname=cudgel user=alice password=cudgel"
    );
}

#[test]
fn config_from_env_requires_a_user() {
    assert!(Config::from_env("bob".to_string(), PathBuf::from("/m")).is_ok());
    match Config::from_env("   ".to_string(), PathBuf::from("/m")) {
        Err(Error::Config(m)) => assert_eq!(m, "Database user cannot be empty"),
        _ => panic!("expected a configuration error"),
    }
}

#[test]
fn xdg_directories() {
    assert_eq!(
        xdg_state_home(None, Some("/home/u".to_string())),
        "/home/u/.local/state"
    );
    assert_eq!(
        xdg_state_home(Some("/state".to_string()), Some("/home/u".to_string())),
        "/state"
    );
    assert_eq!(
        cudgel_data_dir(None, Some("/home/u".to_string())),
        "/home/u/.local/share/cudgel"
    );
    assert_eq!(
        cudgel_config_dir(None, Some("/home/u".to_string())),
        "/home/u/.config/cudgel"
    );
    assert_eq!(
        cudgel_state_dir(Some("/s".to_string()), None),
        "/s/cudgel"
    );
    assert_eq!(
        cudgel_cache_dir(None, Some("/home/u/".to_string())),
        "/home/u/.cache/cudgel"
    );
}

#[test]
fn test_xdg_state_home_returns_valid_path() {
    let state_home = xdg_state_home(None, Some("/home/tester".to_string()));
    assert!(!state_home.is_empty());
    assert!(state_home.starts_with('/'));
}
