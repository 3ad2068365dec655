use cudgel::config::Config;
use cudgel::services::{
    database_container_running, database_status_text, launch_agents_status, postgres_agent_plist,
    services_running, temporal_agent_plist, temporal_up, LocalDatabase, MacOSServices,
    ServiceManager, TemporalClient,
};
use std::path::PathBuf;

#[test]
fn local_database_settings() {
    assert_eq!(LocalDatabase::new().compose_file(), "docker-compose.yml");
    assert_eq!(LocalDatabase::with_compose_file("x.yml".to_string()).compose_file(), "x.yml");
    let c = LocalDatabase::get_config(Config::local("me".to_string(), PathBuf::from("/m")));
    assert_eq!(c.database_url(), "host=localhost port=5432 dbname=cudgel user=cudgel password=cudgel");
    assert!(database_container_running("cudgel-postgres\n"));
    assert!(!database_container_running(""));
    assert_eq!(database_status_text(false, true), "stopped");
    assert_eq!(database_status_text(true, false), "running (unhealthy)");
}

#[test]
fn services_and_agents() {
    let m = ServiceManager::new();
    assert!(m.compose_content().contains("pgvector/pgvector:pg16"));
    assert!(services_running("cudgel-postgres-1\ncudgel-temporal-1"));
    assert!(temporal_up("Up 3 minutes"));
    let s = MacOSServices::new(None);
    assert_eq!(s.postgres_plist_path(), "/Users/unknown/Library/LaunchAgents/com.cudgel.postgres.plist");
    let p = postgres_agent_plist("/opt/homebrew");
    assert!(p.contains("<string>/opt/homebrew/opt/postgresql@16/bin/postgres</string>"));
    assert!(p.contains("<string>/opt/homebrew/var/postgresql@16</string>"));
    assert!(temporal_agent_plist().contains("temporalio/auto-setup:latest"));
    assert_eq!(launch_agents_status(true, false), "PostgreSQL: running\nTemporal:   stopped\n");
    let t = TemporalClient::new(Config::local("me".to_string(), PathBuf::from("/m")));
    assert_eq!(t.schedule_indexing("/r"), "workflow-placeholder");
    assert_eq!(t.schedule_periodic_indexing("/r", 24), "periodic-workflow-placeholder");
}
