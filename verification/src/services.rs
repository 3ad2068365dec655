//! Local services: the Docker Compose database, the PostgreSQL and Temporal
//! services, their macOS launch agents, and the Temporal client.  The
//! commands are run by the program; the library says what they are and
//! what their output means.
use vstd::prelude::*;
use crate::config::Config;
use crate::paths::{join, join_path};
use crate::text::{cat, cat3, cat5, contains, str_contains, str_eq, trim, trim_str};

verus! {

/// The Docker Compose project of the local services.
pub const PROJECT_NAME: &'static str = "cudgel";

/// How long to wait for the local database to become healthy, in seconds.
pub const MAX_WAIT_TIME: u64 = 60;

/// A local PostgreSQL database run with Docker Compose.
#[derive(Debug, Clone)]
pub struct LocalDatabase {
    compose_file: String,
}

impl LocalDatabase {
    pub closed spec fn file(&self) -> Seq<char> {
        self.compose_file@
    }

    /// The database of `docker-compose.yml` in the current directory.
    pub fn new() -> (d: LocalDatabase)
        ensures
            d.file() == "docker-compose.yml"@,
    {
        LocalDatabase { compose_file: String::from_str("docker-compose.yml") }
    }

    /// The database of the given Compose file.
    pub fn with_compose_file(compose_file: String) -> (d: LocalDatabase)
        ensures
            d.file() == compose_file@,
    {
        LocalDatabase { compose_file }
    }

    /// The Compose file.
    pub fn compose_file(&self) -> (res: &String)
        ensures
            res@ == self.file(),
    {
        &self.compose_file
    }

    /// The configuration for the local database: `base` with the database
    /// on `localhost:5432`, named `cudgel`, user and password `cudgel`.
    pub fn get_config(base: Config) -> (c: Config)
        ensures
            c.database.host@ == "localhost"@,
            c.database.port == 5432,
            c.database.database@ == "cudgel"@,
            c.database.user@ == "cudgel"@,
            c.database.password@ == "cudgel"@,
            c.embedding == base.embedding,
            c.indexing == base.indexing,
    {
        let mut config = base;
        config.database.host = String::from_str("localhost");
        config.database.port = 5432;
        config.database.database = String::from_str("cudgel");
        config.database.user = String::from_str("cudgel");
        config.database.password = String::from_str("cudgel");
        config
    }
}

/// Whether `docker ps` shows the database container: its output, trimmed,
/// is the container's name.
pub fn database_container_running(docker_ps_output: &str) -> (b: bool)
    ensures
        b == (trim(docker_ps_output@) == "cudgel-postgres"@),
{
    let t = trim_str(docker_ps_output);
    str_eq(t.as_str(), "cudgel-postgres")
}

/// The status of the local database.
pub fn database_status_text(running: bool, healthy: bool) -> (res: &'static str)
    ensures
        res@ == if !running {
            "stopped"@
        } else if healthy {
            "running (healthy)"@
        } else {
            "running (unhealthy)"@
        },
{
    if !running {
        "stopped"
    } else if healthy {
        "running (healthy)"
    } else {
        "running (unhealthy)"
    }
}

/// The Compose file of the PostgreSQL and Temporal services.
pub open spec fn services_compose() -> Seq<char> {
    r#"
version: '3.8'

services:
  postgres:
    image: pgvector/pgvector:pg16
    environment:
      POSTGRES_USER: cudgel
      POSTGRES_PASSWORD: cudgel
      POSTGRES_DB: cudgel
    ports:
      - "5432:5432"
    volumes:
      - cudgel_pgdata:/var/lib/postgresql/data
    healthcheck:
      test: ["CMD-SHELL", "pg_isready -U cudgel"]
      interval: 5s
      timeout: 5s
      retries: 5

  temporal:
    image: temporalio/auto-setup:latest
    environment:
      - DB=postgresql
      - DB_PORT=5432
      - POSTGRES_USER=cudgel
      - POSTGRES_PWD=cudgel
      - POSTGRES_SEEDS=postgres
    ports:
      - "7233:7233"
    depends_on:
      postgres:
        condition: service_healthy

volumes:
  cudgel_pgdata:
"#@
}

/// Runs PostgreSQL and Temporal with Docker Compose.
#[derive(Debug, Clone)]
pub struct ServiceManager {
    compose_file: String,
}

impl ServiceManager {
    pub closed spec fn content(&self) -> Seq<char> {
        self.compose_file@
    }

    /// The manager of the two services.
    pub fn new() -> (m: ServiceManager)
        ensures
            m.content() == services_compose(),
    {
        ServiceManager { compose_file: String::from_str(r#"
version: '3.8'

services:
  postgres:
    image: pgvector/pgvector:pg16
    environment:
      POSTGRES_USER: cudgel
      POSTGRES_PASSWORD: cudgel
      POSTGRES_DB: cudgel
    ports:
      - "5432:5432"
    volumes:
      - cudgel_pgdata:/var/lib/postgresql/data
    healthcheck:
      test: ["CMD-SHELL", "pg_isready -U cudgel"]
      interval: 5s
      timeout: 5s
      retries: 5

  temporal:
    image: temporalio/auto-setup:latest
    environment:
      - DB=postgresql
      - DB_PORT=5432
      - POSTGRES_USER=cudgel
      - POSTGRES_PWD=cudgel
      - POSTGRES_SEEDS=postgres
    ports:
      - "7233:7233"
    depends_on:
      postgres:
        condition: service_healthy

volumes:
  cudgel_pgdata:
"#) }
    }

    /// The content of the Compose file.
    pub fn compose_content(&self) -> (res: &String)
        ensures
            res@ == self.content(),
    {
        &self.compose_file
    }
}

/// Whether `docker ps` lists a service container.
pub fn services_running(docker_ps_output: &str) -> (b: bool)
    ensures
        b == contains(docker_ps_output@, "cudgel"@),
{
    str_contains(docker_ps_output, "cudgel")
}

/// Whether the Temporal container is up, from its `docker ps` status.
pub fn temporal_up(docker_ps_status: &str) -> (b: bool)
    ensures
        b == contains(docker_ps_status@, "Up"@),
{
    str_contains(docker_ps_status, "Up")
}

/// The PostgreSQL and Temporal services as macOS launch agents.
#[derive(Debug, Clone)]
pub struct MacOSServices {
    launch_agents_dir: String,
}

/// The launch agent of PostgreSQL, for the server and data directory given.
pub open spec fn postgres_agent(postgres_bin: Seq<char>, data_dir: Seq<char>) -> Seq<char> {
    r#"<?xml version="1.0" encoding="UTF-8"?>
<!DOCTYPE plist PUBLIC "-//Apple//DTD PLIST 1.0//EN" "http://www.apple.com/DTDs/PropertyList-1.0.dtd">
<plist version="1.0">
<dict>
    <key>Label</key>
    <string>com.cudgel.postgres</string>
    <key>ProgramArguments</key>
    <array>
        <string>"#@ + postgres_bin + r#"</string>
        <string>-D</string>
        <string>"#@ + data_dir + r#"</string>
    </array>
    <key>RunAtLoad</key>
    <true/>
    <key>KeepAlive</key>
    <true/>
    <key>StandardOutPath</key>
    <string>/tmp/cudgel-postgres.log</string>
    <key>StandardErrorPath</key>
    <string>/tmp/cudgel-postgres-error.log</string>
</dict>
</plist>"#@
}

/// The launch agent of Temporal.
pub open spec fn temporal_agent() -> Seq<char> {
    r#"<?xml version="1.0" encoding="UTF-8"?>
<!DOCTYPE plist PUBLIC "-//Apple//DTD PLIST 1.0//EN" "http://www.apple.com/DTDs/PropertyList-1.0.dtd">
<plist version="1.0">
<dict>
    <key>Label</key>
    <string>com.cudgel.temporal</string>
    <key>ProgramArguments</key>
    <array>
        <string>/usr/local/bin/docker</string>
        <string>run</string>
        <string>--rm</string>
        <string>--name</string>
        <string>cudgel-temporal</string>
        <string>-p</string>
        <string>7233:7233</string>
        <string>temporalio/auto-setup:latest</string>
    </array>
    <key>RunAtLoad</key>
    <true/>
    <key>KeepAlive</key>
    <true/>
    <key>StandardOutPath</key>
    <string>/tmp/cudgel-temporal.log</string>
    <key>StandardErrorPath</key>
    <string>/tmp/cudgel-temporal-error.log</string>
</dict>
</plist>"#@
}

impl MacOSServices {
    pub closed spec fn dir(&self) -> Seq<char> {
        self.launch_agents_dir@
    }

    /// The launch agents of the user whose home is `home` (`/Users/unknown`
    /// when `HOME` is not set).
    pub fn new(home: Option<String>) -> (s: MacOSServices)
        ensures
            s.dir() == join(
                match home {
                    Some(h) => h@,
                    None => "/Users/unknown"@,
                },
                "Library/LaunchAgents"@,
            ),
    {
        let h = match home {
            Some(h) => h,
            None => String::from_str("/Users/unknown"),
        };
        MacOSServices { launch_agents_dir: join_path(h.as_str(), "Library/LaunchAgents") }
    }

    /// Where the PostgreSQL launch agent is written.
    pub fn postgres_plist_path(&self) -> (res: String)
        ensures
            res@ == join(self.dir(), "com.cudgel.postgres.plist"@),
    {
        join_path(self.launch_agents_dir.as_str(), "com.cudgel.postgres.plist")
    }

    /// Where the Temporal launch agent is written.
    pub fn temporal_plist_path(&self) -> (res: String)
        ensures
            res@ == join(self.dir(), "com.cudgel.temporal.plist"@),
    {
        join_path(self.launch_agents_dir.as_str(), "com.cudgel.temporal.plist")
    }
}

/// The PostgreSQL launch agent for the Homebrew installation at
/// `brew_prefix`: the server of `postgresql@16` on its data directory.
pub fn postgres_agent_plist(brew_prefix: &str) -> (res: String)
    ensures
        res@ == postgres_agent(
            brew_prefix@ + "/opt/postgresql@16/bin/postgres"@,
            brew_prefix@ + "/var/postgresql@16"@,
        ),
{
    let bin = cat(brew_prefix, "/opt/postgresql@16/bin/postgres");
    let data = cat(brew_prefix, "/var/postgresql@16");
    cat5(r#"<?xml version="1.0" encoding="UTF-8"?>
<!DOCTYPE plist PUBLIC "-//Apple//DTD PLIST 1.0//EN" "http://www.apple.com/DTDs/PropertyList-1.0.dtd">
<plist version="1.0">
<dict>
    <key>Label</key>
    <string>com.cudgel.postgres</string>
    <key>ProgramArguments</key>
    <array>
        <string>"#, bin.as_str(), r#"</string>
        <string>-D</string>
        <string>"#, data.as_str(), r#"</string>
    </array>
    <key>RunAtLoad</key>
    <true/>
    <key>KeepAlive</key>
    <true/>
    <key>StandardOutPath</key>
    <string>/tmp/cudgel-postgres.log</string>
    <key>StandardErrorPath</key>
    <string>/tmp/cudgel-postgres-error.log</string>
</dict>
</plist>"#)
}

/// The Temporal launch agent.
pub fn temporal_agent_plist() -> (res: String)
    ensures
        res@ == temporal_agent(),
{
    String::from_str(r#"<?xml version="1.0" encoding="UTF-8"?>
<!DOCTYPE plist PUBLIC "-//Apple//DTD PLIST 1.0//EN" "http://www.apple.com/DTDs/PropertyList-1.0.dtd">
<plist version="1.0">
<dict>
    <key>Label</key>
    <string>com.cudgel.temporal</string>
    <key>ProgramArguments</key>
    <array>
        <string>/usr/local/bin/docker</string>
        <string>run</string>
        <string>--rm</string>
        <string>--name</string>
        <string>cudgel-temporal</string>
        <string>-p</string>
        <string>7233:7233</string>
        <string>temporalio/auto-setup:latest</string>
    </array>
    <key>RunAtLoad</key>
    <true/>
    <key>KeepAlive</key>
    <true/>
    <key>StandardOutPath</key>
    <string>/tmp/cudgel-temporal.log</string>
    <key>StandardErrorPath</key>
    <string>/tmp/cudgel-temporal-error.log</string>
</dict>
</plist>"#)
}

/// The status of the two launch agents, from whether `launchctl list` knows
/// each.
pub fn launch_agents_status(postgres_running: bool, temporal_running: bool) -> (res: String)
    ensures
        res@ == "PostgreSQL: "@ + (if postgres_running {
            "running\n"@
        } else {
            "stopped\n"@
        }) + "Temporal:   "@ + (if temporal_running {
            "running\n"@
        } else {
            "stopped\n"@
        }),
{
    let pg = if postgres_running {
        "running\n"
    } else {
        "stopped\n"
    };
    let tp = if temporal_running {
        "running\n"
    } else {
        "stopped\n"
    };
    let a = cat("PostgreSQL: ", pg);
    cat3(a.as_str(), "Temporal:   ", tp)
}

/// The client of the Temporal workflow service.
#[derive(Debug, Clone)]
pub struct TemporalClient {
    config: Config,
}

impl TemporalClient {
    pub closed spec fn configuration(&self) -> Config {
        self.config
    }

    /// A client with the given configuration.
    pub fn new(config: Config) -> (c: TemporalClient)
        ensures
            c.configuration() == config,
    {
        TemporalClient { config }
    }

    /// Schedules the indexing of a repository: workflows are not run yet,
    /// and the id given is a fixed one.
    pub fn schedule_indexing(&self, repo_path: &str) -> (id: String)
        ensures
            id@ == "workflow-placeholder"@,
    {
        String::from_str("workflow-placeholder")
    }

    /// Schedules the periodic indexing of a repository: workflows are not
    /// run yet, and the id given is a fixed one.
    pub fn schedule_periodic_indexing(&self, repo_path: &str, interval_hours: u64) -> (id: String)
        ensures
            id@ == "periodic-workflow-placeholder"@,
    {
        String::from_str("periodic-workflow-placeholder")
    }
}

} // verus!
