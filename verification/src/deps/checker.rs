//! Checking the dependencies and reporting their state.
use vstd::prelude::*;
use crate::deps::{ComponentType, Dependency, DependencyStatus};
use crate::paths::{join, join_path};
use crate::text::{cat, cat3, cat4, cat5, dec, fmt_u64};

verus! {

/// The database port that a local installation uses.
pub const DEFAULT_DATABASE_PORT: u16 = 45678;

/// A model file smaller than this (in bytes) is taken to be corrupted.
pub const MIN_MODEL_SIZE: u64 = 10000000;

/// Checks the dependencies of a local installation.
#[derive(Debug, Clone)]
pub struct DependencyChecker {
    models_dir: String,
    database_port: u16,
}

/// `s` padded with spaces to at least `width` characters (`{:<width}`).
pub open spec fn pad_right(s: Seq<char>, width: nat) -> Seq<char> {
    if s.len() >= width {
        s
    } else {
        s + Seq::new((width - s.len()) as nat, |i: int| ' ')
    }
}

fn pad_right_exec(s: &str, width: usize) -> (res: String)
    ensures
        res@ == pad_right(s@, width as nat),
{
    let mut res = String::from_str(s);
    let n = crate::text::chars_of(s).len();
    let mut k: usize = n;
    proof {
        reveal_strlit(" ");
    }
    while k < width
        invariant
            n == s@.len(),
            k >= n,
            k <= width || k == n,
            res@ == s@ + Seq::new((k - n) as nat, |i: int| ' '),
        decreases width - k,
    {
        res.append(" ");
        proof {
            reveal_strlit(" ");
        }
        assert(res@ =~= s@ + Seq::new((k + 1 - n) as nat, |i: int| ' '));
        k = k + 1;
    }
    assert(s@.len() >= width ==> k == n);
    assert(s@.len() >= width ==> res@ =~= s@);
    assert(s@.len() < width ==> res@ =~= s@ + Seq::new((width - s@.len()) as nat, |i: int| ' '));
    res
}

/// The mark shown for a status.
pub open spec fn status_icon(s: DependencyStatus) -> Seq<char> {
    match s {
        DependencyStatus::Satisfied => "✓"@,
        DependencyStatus::Missing => "✗"@,
        DependencyStatus::Corrupted => "⚠"@,
        DependencyStatus::Unknown => "?"@,
    }
}

/// The word shown for a status.
pub open spec fn status_text(s: DependencyStatus) -> Seq<char> {
    match s {
        DependencyStatus::Satisfied => "OK"@,
        DependencyStatus::Missing => "MISSING"@,
        DependencyStatus::Corrupted => "CORRUPTED"@,
        DependencyStatus::Unknown => "UNKNOWN"@,
    }
}

fn icon(s: DependencyStatus) -> (res: &'static str)
    ensures
        res@ == status_icon(s),
{
    match s {
        DependencyStatus::Satisfied => "✓",
        DependencyStatus::Missing => "✗",
        DependencyStatus::Corrupted => "⚠",
        DependencyStatus::Unknown => "?",
    }
}

fn word(s: DependencyStatus) -> (res: &'static str)
    ensures
        res@ == status_text(s),
{
    match s {
        DependencyStatus::Satisfied => "OK",
        DependencyStatus::Missing => "MISSING",
        DependencyStatus::Corrupted => "CORRUPTED",
        DependencyStatus::Unknown => "UNKNOWN",
    }
}

/// The rule that frames the table.
pub open spec fn table_rule() -> Seq<char> {
    "─────────────────────────────────────────────────\n"@
}

/// The rows of the table for `deps`: for each, its mark, its name padded
/// to 30 characters and its status word, then its error message, if any, on
/// a line of its own.
pub open spec fn table_rows(deps: Seq<Dependency>) -> Seq<char>
    decreases deps.len(),
{
    if deps.len() == 0 {
        Seq::empty()
    } else {
        let d = deps.last();
        table_rows(deps.drop_last()) + status_icon(d.status) + " "@ + pad_right(d.name@, 30)
            + " "@ + status_text(d.status) + "\n"@ + (match d.error_message {
            Some(m) => "  └─ "@ + m@ + "\n"@,
            None => Seq::empty(),
        })
    }
}

/// The whole validation table for `deps`.
pub open spec fn validation_table(deps: Seq<Dependency>) -> Seq<char> {
    "\nDependency Status:\n"@ + table_rule() + table_rows(deps) + table_rule()
}

/// The error shown for the model when it is not satisfied.
pub open spec fn model_message(models_dir: Seq<char>) -> Seq<char> {
    "Model not found in "@ + models_dir + ". Run: cudgel deps"@
}

/// The error shown for the database when it is not satisfied.
pub open spec fn database_message(port: u16) -> Seq<char> {
    "PostgreSQL not running on port "@ + dec(port as nat) + ". Run: cudgel deps"@
}

/// The error shown for the schema when it is not satisfied.
pub open spec fn schema_message() -> Seq<char> {
    "Database schema not initialized. Run: cudgel deps"@
}

/// `d` is the dependency called `name`, of kind `kind`, required, in state
/// `status`, with `message` as its error when that state is not `Satisfied`.
pub open spec fn checked(d: Dependency, name: Seq<char>, kind: ComponentType, status: DependencyStatus, message: Seq<char>) -> bool {
    &&& d.name@ == name
    &&& d.component_type == kind
    &&& d.required
    &&& d.status == status
    &&& if status == DependencyStatus::Satisfied {
        d.error_message is None
    } else {
        d.error_message matches Some(m) && m@ == message
    }
}

impl DependencyChecker {
    /// The directory where the models are kept.
    pub closed spec fn dir(&self) -> Seq<char> {
        self.models_dir@
    }

    /// The port of the database.
    pub closed spec fn port(&self) -> u16 {
        self.database_port
    }

    /// A checker of the models under `models_dir` and of the database on
    /// `database_port`.
    pub fn new(models_dir: String, database_port: u16) -> (c: DependencyChecker)
        ensures
            c.dir() == models_dir@,
            c.port() == database_port,
    {
        DependencyChecker { models_dir, database_port }
    }

    /// The checker of the default installation: the models under
    /// `<data home>/cudgel/models`, the data home being `XDG_DATA_HOME`, else
    /// `<HOME>/.local/share` (`HOME` defaulting to `.`), and the database on
    /// `DEFAULT_DATABASE_PORT`.
    pub fn for_data_home(xdg_data_home: Option<String>, home: Option<String>) -> (c: DependencyChecker)
        ensures
            c.port() == DEFAULT_DATABASE_PORT,
            c.dir() == join(
                match xdg_data_home {
                    Some(d) => d@,
                    None => (match home {
                        Some(h) => h@,
                        None => "."@,
                    }) + "/.local/share"@,
                },
                "cudgel/models"@,
            ),
    {
        let data = match xdg_data_home {
            Some(d) => d,
            None => {
                let h = match home {
                    Some(h) => h,
                    None => String::from_str("."),
                };
                cat(h.as_str(), "/.local/share")
            },
        };
        let dir = join_path(data.as_str(), "cudgel/models");
        DependencyChecker::new(dir, DEFAULT_DATABASE_PORT)
    }

    /// The directory where the models are kept.
    pub fn models_dir(&self) -> (res: &String)
        ensures
            res@ == self.dir(),
    {
        &self.models_dir
    }

    /// The port of the database.
    pub fn database_port(&self) -> (res: u16)
        ensures
            res == self.port(),
    {
        self.database_port
    }

    /// Where the embedding model file is expected.
    pub fn model_path(&self) -> (res: String)
        ensures
            res@ == join(self.dir(), "sentence-transformers/all-MiniLM-L6-v2/model.onnx"@),
    {
        join_path(self.models_dir.as_str(), "sentence-transformers/all-MiniLM-L6-v2/model.onnx")
    }

    /// The connection string used to look for the schema, as `user` (the
    /// `USER` variable, defaulting to `postgres`).
    pub fn schema_check_connection(&self, user: Option<String>) -> (res: String)
        ensures
            res@ == "host=localhost port="@ + dec(self.port() as nat) + " dbname=cudgel user="@
                + (match user {
                Some(u) => u@,
                None => "postgres"@,
            }) + " password="@,
    {
        let u = match user {
            Some(u) => u,
            None => String::from_str("postgres"),
        };
        let port = fmt_u64(self.database_port as u64);
        cat5("host=localhost port=", port.as_str(), " dbname=cudgel user=", u.as_str(), " password=")
    }

    /// The results of a validation, from the state found for the model, the
    /// database and the schema.
    pub fn validation_results(
        &self,
        model: DependencyStatus,
        database: DependencyStatus,
        schema: DependencyStatus,
    ) -> (res: Vec<Dependency>)
        ensures
            res@.len() == 3,
            checked(res@[0], "ONNX Embedding Model"@, ComponentType::Model, model, model_message(self.dir())),
            checked(res@[1], "PostgreSQL Database"@, ComponentType::Database, database, database_message(self.port())),
            checked(res@[2], "Database Schema"@, ComponentType::Schema, schema, schema_message()),
    {
        let mut res: Vec<Dependency> = Vec::new();
        let mut m = Dependency::new(String::from_str("ONNX Embedding Model"), ComponentType::Model, true);
        m.status = model;
        if model != DependencyStatus::Satisfied {
            m.error_message = Some(cat3("Model not found in ", self.models_dir.as_str(), ". Run: cudgel deps"));
        }
        res.push(m);
        let mut d = Dependency::new(String::from_str("PostgreSQL Database"), ComponentType::Database, true);
        d.status = database;
        if database != DependencyStatus::Satisfied {
            let port = fmt_u64(self.database_port as u64);
            d.error_message = Some(cat3("PostgreSQL not running on port ", port.as_str(), ". Run: cudgel deps"));
        }
        res.push(d);
        let mut s = Dependency::new(String::from_str("Database Schema"), ComponentType::Schema, true);
        s.status = schema;
        if schema != DependencyStatus::Satisfied {
            s.error_message = Some(String::from_str("Database schema not initialized. Run: cudgel deps"));
        }
        res.push(s);
        res
    }

    /// The prerequisites, from whether `pg_ctl` could be run and whether the
    /// models directory or its parent exists.
    pub fn prerequisites(&self, pg_ctl_found: bool, models_dir_reachable: bool) -> (res: Vec<Dependency>)
        ensures
            res@.len() == 2,
            checked(
                res@[0],
                "PostgreSQL Binary"@,
                ComponentType::ExternalTool,
                if pg_ctl_found {
                    DependencyStatus::Satisfied
                } else {
                    DependencyStatus::Missing
                },
                "PostgreSQL not found. Install with: brew install postgresql@17 (macOS) or apt install postgresql-17 (Linux)"@,
            ),
            checked(
                res@[1],
                "Sufficient Disk Space"@,
                ComponentType::ExternalTool,
                if models_dir_reachable {
                    DependencyStatus::Satisfied
                } else {
                    DependencyStatus::Missing
                },
                "Cannot access "@ + self.dir() + ". Check disk space and permissions."@,
            ),
    {
        let mut res: Vec<Dependency> = Vec::new();
        let mut pg = Dependency::new(String::from_str("PostgreSQL Binary"), ComponentType::ExternalTool, true);
        if pg_ctl_found {
            pg.status = DependencyStatus::Satisfied;
        } else {
            pg.error_message = Some(
                String::from_str(
                    "PostgreSQL not found. Install with: brew install postgresql@17 (macOS) or apt install postgresql-17 (Linux)",
                ),
            );
            pg.status = DependencyStatus::Missing;
        }
        res.push(pg);
        let mut disk = Dependency::new(String::from_str("Sufficient Disk Space"), ComponentType::ExternalTool, true);
        if models_dir_reachable {
            disk.status = DependencyStatus::Satisfied;
        } else {
            disk.error_message = Some(cat3("Cannot access ", self.models_dir.as_str(), ". Check disk space and permissions."));
            disk.status = DependencyStatus::Missing;
        }
        res.push(disk);
        res
    }

    /// Formats validation results as a table (see [`validation_table`]).
    pub fn format_validation_table(&self, dependencies: &Vec<Dependency>) -> (res: String)
        ensures
            res@ == validation_table(dependencies@),
    {
        let mut out = String::from_str("\nDependency Status:\n");
        out.append("─────────────────────────────────────────────────\n");
        let mut i: usize = 0;
        assert(dependencies@.take(0) =~= Seq::<Dependency>::empty());
        while i < dependencies.len()
            invariant
                i <= dependencies.len(),
                out@ == "\nDependency Status:\n"@ + table_rule() + table_rows(dependencies@.take(i as int)),
            decreases dependencies.len() - i,
        {
            let d = &dependencies[i];
            let ghost before = out@;
            out.append(icon(d.status));
            out.append(" ");
            let padded = pad_right_exec(d.name.as_str(), 30);
            out.append(padded.as_str());
            out.append(" ");
            out.append(word(d.status));
            out.append("\n");
            match &d.error_message {
                Some(m) => {
                    out.append("  └─ ");
                    out.append(m.as_str());
                    out.append("\n");
                },
                None => {},
            }
            proof {
                let p = dependencies@.take(i + 1);
                assert(p.drop_last() =~= dependencies@.take(i as int));
                assert(p.last() == dependencies@[i as int]);
                assert(out@ =~= "\nDependency Status:\n"@ + table_rule() + table_rows(p));
            }
            i = i + 1;
        }
        assert(dependencies@.take(i as int) =~= dependencies@);
        out.append("─────────────────────────────────────────────────\n");
        out
    }

    /// Diagnostic information for verbose output, from the version that
    /// `pg_ctl --version` printed (if it could be run), whether the models
    /// directory exists, and the `XDG_DATA_HOME` and `HOME` variables.
    pub fn collect_diagnostics(
        &self,
        pg_version: Option<String>,
        models_dir_exists: bool,
        xdg_data_home: Option<String>,
        home: Option<String>,
    ) -> (res: String)
        ensures
            res@ == "\n=== Diagnostic Information ===\n\n"@ + (match pg_version {
                Some(v) => "PostgreSQL Version:\n"@ + "  "@ + v@ + "\n\n"@,
                None => Seq::empty(),
            }) + "Models Directory: "@ + self.dir() + "\n"@ + "  Exists: "@ + (if models_dir_exists {
                "true"@
            } else {
                "false"@
            }) + "\n\n"@ + "Database Port: "@ + dec(self.port() as nat) + "\n"@ + "Environment:\n"@
                + (match xdg_data_home {
                Some(x) => "  XDG_DATA_HOME: "@ + x@ + "\n"@,
                None => Seq::empty(),
            }) + (match home {
                Some(h) => "  HOME: "@ + h@ + "\n"@,
                None => Seq::empty(),
            }) + "\n===============================\n"@,
    {
        let pg = match &pg_version {
            Some(v) => cat4("PostgreSQL Version:\n", "  ", v.as_str(), "\n\n"),
            None => String::new(),
        };
        let exists = if models_dir_exists {
            "true"
        } else {
            "false"
        };
        let dir = cat5("Models Directory: ", self.models_dir.as_str(), "\n", "  Exists: ", exists);
        let port_text = fmt_u64(self.database_port as u64);
        let port = cat3("Database Port: ", port_text.as_str(), "\n");
        let xdg = match &xdg_data_home {
            Some(x) => cat3("  XDG_DATA_HOME: ", x.as_str(), "\n"),
            None => String::new(),
        };
        let h = match &home {
            Some(h) => cat3("  HOME: ", h.as_str(), "\n"),
            None => String::new(),
        };
        let env = cat4("Environment:\n", xdg.as_str(), h.as_str(), "\n===============================\n");
        let head = cat3("\n=== Diagnostic Information ===\n\n", pg.as_str(), dir.as_str());
        let res = cat4(head.as_str(), "\n\n", port.as_str(), env.as_str());
        assert(res@ =~= "\n=== Diagnostic Information ===\n\n"@ + pg@ + "Models Directory: "@ + self.dir() + "\n"@ + "  Exists: "@ + exists@ + "\n\n"@ + "Database Port: "@ + port_text@ + "\n"@ + "Environment:\n"@ + xdg@ + h@ + "\n===============================\n"@);
        res
    }
}

/// The state of the model from the size of its file, if it exists: larger
/// than `MIN_MODEL_SIZE` bytes is satisfied, smaller is corrupted.
pub fn model_status(size: Option<u64>) -> (s: DependencyStatus)
    ensures
        s == match size {
            None => DependencyStatus::Missing,
            Some(n) => if n > MIN_MODEL_SIZE {
                DependencyStatus::Satisfied
            } else {
                DependencyStatus::Corrupted
            },
        },
{
    match size {
        None => DependencyStatus::Missing,
        Some(n) => if n > MIN_MODEL_SIZE {
            DependencyStatus::Satisfied
        } else {
            DependencyStatus::Corrupted
        },
    }
}

/// The state of the database from whether `pg_isready` succeeded.
pub fn database_status(ready: bool) -> (s: DependencyStatus)
    ensures
        s == if ready {
            DependencyStatus::Satisfied
        } else {
            DependencyStatus::Missing
        },
{
    if ready {
        DependencyStatus::Satisfied
    } else {
        DependencyStatus::Missing
    }
}

/// The state of the schema from the answer to "does the `repositories`
/// table exist" (none when the database could not be asked).
pub fn schema_status(exists: Option<bool>) -> (s: DependencyStatus)
    ensures
        s == if exists == Some(true) {
            DependencyStatus::Satisfied
        } else {
            DependencyStatus::Missing
        },
{
    match exists {
        Some(true) => DependencyStatus::Satisfied,
        _ => DependencyStatus::Missing,
    }
}

} // verus!
