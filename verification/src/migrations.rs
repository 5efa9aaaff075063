//! Database schema migrations: the registry of known migrations, which of
//! them are pending, rollback checks, integrity checks of applied
//! migrations, and the splitting of migration scripts into statements.
//! Executing the statements against the database is the application's part.
use vstd::prelude::*;
use std::collections::HashMap;
use crate::text::{
    chars_of, string_from_chars, append_chars, trim, trim_chars, split_char, decimal, decimal_text,
    str_eq,
};

verus! {

broadcast use vstd::std_specs::hash::group_hash_axioms;

/// The forward script of migration 1.
pub const MIGRATION_1_UP: &'static str = r#"
                CREATE INDEX IF NOT EXISTS idx_job_descriptions_created_at ON job_descriptions(created_at);
                CREATE INDEX IF NOT EXISTS idx_user_feedback_created_at ON user_feedback(created_at);
                CREATE INDEX IF NOT EXISTS idx_model_performance_updated_at ON model_performance_metrics(updated_at);
                CREATE INDEX IF NOT EXISTS idx_ats_rules_category ON ats_compatibility_rules(category);
                CREATE INDEX IF NOT EXISTS idx_industry_keywords_industry ON industry_keywords(industry);
            "#;

/// The rollback script of migration 1.
pub const MIGRATION_1_DOWN: &'static str = r#"
                DROP INDEX IF EXISTS idx_job_descriptions_created_at;
                DROP INDEX IF EXISTS idx_user_feedback_created_at;
                DROP INDEX IF EXISTS idx_model_performance_updated_at;
                DROP INDEX IF EXISTS idx_ats_rules_category;
                DROP INDEX IF EXISTS idx_industry_keywords_industry;
            "#;

/// The forward script of migration 2.
pub const MIGRATION_2_UP: &'static str = r#"
                CREATE TABLE IF NOT EXISTS dynamic_keywords (
                    id INTEGER PRIMARY KEY AUTOINCREMENT,
                    keyword TEXT NOT NULL UNIQUE,
                    industry TEXT NOT NULL,
                    frequency_score REAL NOT NULL DEFAULT 0.0,
                    trend_score REAL NOT NULL DEFAULT 0.0,
                    market_demand REAL NOT NULL DEFAULT 0.0,
                    salary_correlation REAL NOT NULL DEFAULT 0.0,
                    created_at TEXT NOT NULL,
                    updated_at TEXT NOT NULL
                );

                CREATE TABLE IF NOT EXISTS keyword_trends (
                    id INTEGER PRIMARY KEY AUTOINCREMENT,
                    keyword_id INTEGER NOT NULL,
                    trend_date TEXT NOT NULL,
                    frequency_count INTEGER NOT NULL,
                    job_postings_count INTEGER NOT NULL,
                    average_salary REAL,
                    FOREIGN KEY (keyword_id) REFERENCES dynamic_keywords (id)
                );

                CREATE TABLE IF NOT EXISTS skill_relationships (
                    id INTEGER PRIMARY KEY AUTOINCREMENT,
                    source_skill TEXT NOT NULL,
                    target_skill TEXT NOT NULL,
                    relationship_type TEXT NOT NULL,
                    strength REAL NOT NULL,
                    industry_context TEXT,
                    created_at TEXT NOT NULL
                );

                CREATE INDEX IF NOT EXISTS idx_dynamic_keywords_industry ON dynamic_keywords(industry);
                CREATE INDEX IF NOT EXISTS idx_keyword_trends_date ON keyword_trends(trend_date);
                CREATE INDEX IF NOT EXISTS idx_skill_relationships_source ON skill_relationships(source_skill);
            "#;

/// The rollback script of migration 2.
pub const MIGRATION_2_DOWN: &'static str = r#"
                DROP INDEX IF EXISTS idx_skill_relationships_source;
                DROP INDEX IF EXISTS idx_keyword_trends_date;
                DROP INDEX IF EXISTS idx_dynamic_keywords_industry;
                DROP TABLE IF EXISTS skill_relationships;
                DROP TABLE IF EXISTS keyword_trends;
                DROP TABLE IF EXISTS dynamic_keywords;
            "#;

/// The forward script of migration 3.
pub const MIGRATION_3_UP: &'static str = r#"
                CREATE TABLE IF NOT EXISTS user_optimization_history (
                    id INTEGER PRIMARY KEY AUTOINCREMENT,
                    user_id TEXT NOT NULL,
                    optimization_type TEXT NOT NULL,
                    parameters_before TEXT NOT NULL, -- JSON
                    parameters_after TEXT NOT NULL,  -- JSON
                    performance_improvement REAL NOT NULL,
                    created_at TEXT NOT NULL
                );

                CREATE TABLE IF NOT EXISTS learning_patterns (
                    id INTEGER PRIMARY KEY AUTOINCREMENT,
                    user_id TEXT NOT NULL,
                    pattern_type TEXT NOT NULL,
                    pattern_data TEXT NOT NULL, -- JSON
                    confidence_score REAL NOT NULL,
                    last_updated TEXT NOT NULL
                );

                CREATE TABLE IF NOT EXISTS model_performance_tracking (
                    id INTEGER PRIMARY KEY AUTOINCREMENT,
                    model_name TEXT NOT NULL,
                    metric_name TEXT NOT NULL,
                    metric_value REAL NOT NULL,
                    measurement_context TEXT, -- JSON
                    measured_at TEXT NOT NULL
                );

                CREATE INDEX IF NOT EXISTS idx_optimization_history_user ON user_optimization_history(user_id);
                CREATE INDEX IF NOT EXISTS idx_learning_patterns_user ON learning_patterns(user_id);
                CREATE INDEX IF NOT EXISTS idx_model_tracking_name ON model_performance_tracking(model_name);
            "#;

/// The rollback script of migration 3.
pub const MIGRATION_3_DOWN: &'static str = r#"
                DROP INDEX IF EXISTS idx_model_tracking_name;
                DROP INDEX IF EXISTS idx_learning_patterns_user;
                DROP INDEX IF EXISTS idx_optimization_history_user;
                DROP TABLE IF EXISTS model_performance_tracking;
                DROP TABLE IF EXISTS learning_patterns;
                DROP TABLE IF EXISTS user_optimization_history;
            "#;

/// The forward script of migration 4.
pub const MIGRATION_4_UP: &'static str = r#"
                CREATE TABLE IF NOT EXISTS context_match_cache (
                    id INTEGER PRIMARY KEY AUTOINCREMENT,
                    resume_hash TEXT NOT NULL,
                    job_description_hash TEXT NOT NULL,
                    industry TEXT NOT NULL,
                    match_result TEXT NOT NULL, -- JSON
                    confidence_score REAL NOT NULL,
                    cached_at TEXT NOT NULL,
                    expires_at TEXT NOT NULL
                );

                CREATE TABLE IF NOT EXISTS semantic_analysis_cache (
                    id INTEGER PRIMARY KEY AUTOINCREMENT,
                    content_hash TEXT NOT NULL UNIQUE,
                    analysis_type TEXT NOT NULL,
                    analysis_result TEXT NOT NULL, -- JSON
                    cached_at TEXT NOT NULL,
                    expires_at TEXT NOT NULL
                );

                CREATE INDEX IF NOT EXISTS idx_context_cache_hashes ON context_match_cache(resume_hash, job_description_hash);
                CREATE INDEX IF NOT EXISTS idx_context_cache_expires ON context_match_cache(expires_at);
                CREATE INDEX IF NOT EXISTS idx_semantic_cache_expires ON semantic_analysis_cache(expires_at);
            "#;

/// The rollback script of migration 4.
pub const MIGRATION_4_DOWN: &'static str = r#"
                DROP INDEX IF EXISTS idx_semantic_cache_expires;
                DROP INDEX IF EXISTS idx_context_cache_expires;
                DROP INDEX IF EXISTS idx_context_cache_hashes;
                DROP TABLE IF EXISTS semantic_analysis_cache;
                DROP TABLE IF EXISTS context_match_cache;
            "#;

/// The forward script of migration 5.
pub const MIGRATION_5_UP: &'static str = r#"
                ALTER TABLE resumes ADD COLUMN version INTEGER DEFAULT 1;
                ALTER TABLE resumes ADD COLUMN document_hash TEXT;
                ALTER TABLE resumes ADD COLUMN metadata TEXT; -- JSON for document metadata
                ALTER TABLE resumes ADD COLUMN parsing_errors TEXT; -- JSON for any parsing issues

                CREATE TABLE IF NOT EXISTS document_versions (
                    id INTEGER PRIMARY KEY AUTOINCREMENT,
                    resume_id TEXT NOT NULL,
                    version INTEGER NOT NULL,
                    content TEXT NOT NULL,
                    changes_summary TEXT,
                    created_at TEXT NOT NULL,
                    FOREIGN KEY (resume_id) REFERENCES resumes (id)
                );

                CREATE INDEX IF NOT EXISTS idx_resumes_hash ON resumes(document_hash);
                CREATE INDEX IF NOT EXISTS idx_document_versions_resume ON document_versions(resume_id, version);
            "#;

/// The rollback script of migration 5.
pub const MIGRATION_5_DOWN: &'static str = r#"
                DROP INDEX IF EXISTS idx_document_versions_resume;
                DROP INDEX IF EXISTS idx_resumes_hash;
                DROP TABLE IF EXISTS document_versions;
                -- Note: Cannot drop columns in SQLite, they would remain
            "#;

/// A single database migration.
#[derive(Debug, Clone)]
pub struct Migration {
    pub version: i32,
    pub name: String,
    pub description: String,
    pub up_sql: String,
    pub down_sql: String,
    pub checksum: String,
}

/// The content of a migration: version, name, description, up and down
/// scripts, checksum.
pub type MigrationView = (i32, Seq<char>, Seq<char>, Seq<char>, Seq<char>, Seq<char>);

/// The content of a migration.
pub open spec fn migration_view(m: Migration) -> MigrationView {
    (m.version, m.name@, m.description@, m.up_sql@, m.down_sql@, m.checksum@)
}

/// The registry of known migrations, keyed by version. Besides the map it
/// keeps the registered versions in increasing order.
pub struct MigrationManager {
    migrations: HashMap<i32, Migration>,
    versions: Vec<i32>,
}

impl View for MigrationManager {
    type V = Map<i32, MigrationView>;

    closed spec fn view(&self) -> Map<i32, MigrationView> {
        self.migrations@.map_values(|m: Migration| migration_view(m))
    }
}

/// Whether `s` increases strictly.
pub open spec fn increasing(s: Seq<i32>) -> bool {
    forall|i: int, j: int| 0 <= i < j < s.len() ==> s[i] < s[j]
}

impl MigrationManager {
    /// The list of versions is increasing and holds exactly the registered
    /// versions, and each migration is registered under its own version.
    pub closed spec fn well_formed(&self) -> bool {
        &&& increasing(self.versions@)
        &&& forall|i: int| 0 <= i < self.versions@.len() ==> self.migrations@.contains_key(#[trigger] self.versions@[i])
        &&& forall|v: i32| self.migrations@.contains_key(v) ==> self.versions@.contains(v)
        &&& forall|v: i32| self.migrations@.contains_key(v) ==> (#[trigger] self.migrations@[v]).version == v
    }

    /// Every migration of a registry is registered under its own version.
    pub proof fn law_registered_under_own_version(&self)
        requires
            self.well_formed(),
        ensures
            forall|v: i32| self@.contains_key(v) ==> (#[trigger] self@[v]).0 == v,
    {
    }

    /// A registry without migrations.
    pub fn new() -> (res: Self)
        ensures
            res.well_formed(),
            res@ == Map::<i32, MigrationView>::empty(),
    {
        let res = MigrationManager { migrations: HashMap::new(), versions: Vec::new() };
        assert(res@ =~= Map::<i32, MigrationView>::empty());
        res
    }

    /// Registers `migration` under its version, replacing one registered
    /// before under the same version.
    pub fn register_migration(&mut self, migration: Migration)
        requires
            old(self).well_formed(),
        ensures
            final(self).well_formed(),
            final(self)@ == old(self)@.insert(migration.version, migration_view(migration)),
    {
        let ghost m = migration;
        let v = migration.version;
        if !self.migrations.contains_key(&v) {
            let mut p: usize = 0;
            while p < self.versions.len() && self.versions[p] < v
                invariant
                    p <= self.versions.len(),
                    forall|i: int| 0 <= i < p ==> self.versions@[i] < v,
                decreases self.versions.len() - p,
            {
                p += 1;
            }
            let ghost before = self.versions@;
            assert(!before.contains(v));
            self.versions.insert(p, v);
            assert(self.versions@ == before.take(p as int).push(v) + before.skip(p as int));
            assert(self.versions@[p as int] == v);
            assert forall|i: int, j: int| 0 <= i < j < self.versions@.len() implies self.versions@[i] < self.versions@[j] by {
                if j < p {
                } else if j == p {
                } else if i < p {
                    assert(self.versions@[j] == before[j - 1]);
                    assert(before[j - 1] >= v) by {
                        if before[j - 1] < v {
                            assert(before[p as int] < v || p as int == before.len()) by {
                                assert(p < before.len() ==> before[p as int] >= v);
                            }
                            assert(before[p as int] <= before[j - 1]);
                        }
                    }
                    assert(before[j - 1] != v);
                } else if i == p {
                    assert(self.versions@[j] == before[j - 1]);
                    assert(p < before.len() ==> before[p as int] >= v);
                    assert(before[p as int] <= before[j - 1]);
                    assert(before[p as int] != v);
                } else {
                    assert(self.versions@[i] == before[i - 1]);
                    assert(self.versions@[j] == before[j - 1]);
                }
            }
        }
        let ghost vb = self.versions@;
        assert(vb.contains(v));
        assert forall|w: i32| old(self).migrations@.contains_key(w) implies vb.contains(w) by {
            assert(old(self).versions@.contains(w));
            let k = choose|k: int| 0 <= k < old(self).versions@.len() && old(self).versions@[k] == w;
            if old(self).versions@.len() < vb.len() {
                let p = choose|p: int| 0 <= p <= old(self).versions@.len() && vb == old(self).versions@.take(p).push(v) + old(self).versions@.skip(p);
                if k < p {
                    assert(vb[k] == w);
                } else {
                    assert(vb[k + 1] == w);
                }
            } else {
                assert(vb == old(self).versions@);
            }
        }
        self.migrations.insert(v, migration);
        assert(self@ =~= old(self)@.insert(m.version, migration_view(m)));
        assert forall|i: int| 0 <= i < self.versions@.len() implies self.migrations@.contains_key(#[trigger] self.versions@[i]) by {
            if self.versions@[i] != v {
                assert(old(self).versions@.contains(self.versions@[i]) || self.versions@[i] == v) by {
                    if !old(self).migrations@.contains_key(v) {
                        let k = old(self).versions@.len();
                        assert(vb.len() == k + 1);
                    }
                }
            }
        }
    }
}


/// The pieces of `ps` with surrounding whitespace removed, leaving out the
/// pieces that become empty.
pub open spec fn kept_statements(ps: Seq<Seq<char>>) -> Seq<Seq<char>>
    decreases ps.len(),
{
    if ps.len() == 0 {
        Seq::empty()
    } else {
        kept_statements(ps.drop_last()) + if trim(ps.last()).len() > 0 {
            seq![trim(ps.last())]
        } else {
            Seq::empty()
        }
    }
}

/// The statements of a script: its `;`-separated pieces, trimmed, without
/// the empty ones.
pub open spec fn sql_statements(sql: Seq<char>) -> Seq<Seq<char>> {
    kept_statements(split_char(sql, ';'))
}

/// The statements of a migration script, in order: the `;`-separated
/// pieces, trimmed, without the empty ones.
pub fn split_sql_statements(sql: &str) -> (res: Vec<String>)
    ensures
        res@.map_values(|t: String| t@) == sql_statements(sql@),
{
    let v = chars_of(sql);
    let mut done: Vec<String> = Vec::new();
    let mut cur: Vec<char> = Vec::new();
    let ghost mut raw: Seq<Seq<char>> = Seq::empty();
    let mut i: usize = 0;
    while i < v.len()
        invariant
            i <= v.len(),
            v@ == sql@,
            split_char(v@.take(i as int), ';') == raw.push(cur@),
            done@.map_values(|t: String| t@) == kept_statements(raw),
        decreases v.len() - i,
    {
        let c = v[i];
        assert(v@.take(i + 1).drop_last() == v@.take(i as int));
        assert(v@.take(i + 1).last() == c);
        if c == ';' {
            let t = trim_chars(&cur);
            let ghost before = done@;
            proof {
                assert(raw.push(cur@).drop_last() == raw);
                assert(raw.push(cur@).last() == cur@);
                raw = raw.push(cur@);
            }
            if t.len() > 0 {
                done.push(string_from_chars(&t));
                assert(done@.map_values(|x: String| x@) == before.map_values(|x: String| x@).push(t@));
            }
            cur = Vec::new();
        } else {
            cur.push(c);
        }
        i += 1;
    }
    assert(v@.take(v.len() as int) == v@);
    let ghost p = split_char(v@, ';');
    assert(p.drop_last() == raw);
    assert(p.last() == cur@);
    let t = trim_chars(&cur);
    if t.len() > 0 {
        let ghost before = done@;
        done.push(string_from_chars(&t));
        assert(done@.map_values(|x: String| x@) == before.map_values(|x: String| x@).push(t@));
    }
    done
}

/// A copy of `m`.
fn copy_migration(m: &Migration) -> (res: Migration)
    ensures
        migration_view(res) == migration_view(*m),
{
    Migration {
        version: m.version,
        name: m.name.clone(),
        description: m.description.clone(),
        up_sql: m.up_sql.clone(),
        down_sql: m.down_sql.clone(),
        checksum: m.checksum.clone(),
    }
}

/// Why a rollback cannot start.
#[derive(Debug, Clone, PartialEq, Eq)]
pub enum RollbackError {
    /// No migration is registered under the version.
    NotFound(i32),
    /// The migration has no rollback script.
    NoRollbackSql(i32),
}

/// The message of a rollback error.
pub open spec fn rollback_message(e: RollbackError) -> Seq<char> {
    match e {
        RollbackError::NotFound(v) => "Migration "@ + decimal(v as int) + " not found"@,
        RollbackError::NoRollbackSql(v) => "Migration "@ + decimal(v as int) + " has no rollback SQL"@,
    }
}

impl RollbackError {
    /// The message of this error.
    pub fn message(&self) -> (res: String)
        ensures
            res@ == rollback_message(*self),
    {
        let (v, tail) = match self {
            RollbackError::NotFound(v) => (*v, " not found"),
            RollbackError::NoRollbackSql(v) => (*v, " has no rollback SQL"),
        };
        let mut out: Vec<char> = Vec::new();
        append_chars(&mut out, &chars_of("Migration "));
        append_chars(&mut out, &chars_of(decimal_text(v as i64).as_str()));
        append_chars(&mut out, &chars_of(tail));
        string_from_chars(&out)
    }
}

/// A migration recorded as applied in the database.
#[derive(Debug, Clone)]
pub struct MigrationRecord {
    pub version: i32,
    pub name: String,
    pub checksum: String,
    /// When it was applied, in RFC 3339 form.
    pub applied_at: String,
    pub execution_time_ms: i64,
}

/// The integrity problem of one applied migration, if any: it is not
/// registered, or its checksum differs from the registered one.
pub open spec fn integrity_issue(reg: Map<i32, MigrationView>, version: i32, checksum: Seq<char>) -> Option<Seq<char>> {
    if !reg.contains_key(version) {
        Some("Applied migration "@ + decimal(version as int) + " not found in registered migrations"@)
    } else if reg[version].5 != checksum {
        Some(
            "Migration "@ + decimal(version as int) + " checksum mismatch: expected '"@ + reg[version].5
                + "', found '"@ + checksum + "'"@,
        )
    } else {
        None
    }
}

/// The integrity problems of the applied migrations `applied`, in order.
pub open spec fn integrity_issues(reg: Map<i32, MigrationView>, applied: Seq<MigrationRecord>) -> Seq<Seq<char>>
    decreases applied.len(),
{
    if applied.len() == 0 {
        Seq::empty()
    } else {
        integrity_issues(reg, applied.drop_last()) + match integrity_issue(
            reg,
            applied.last().version,
            applied.last().checksum@,
        ) {
            Some(m) => seq![m],
            None => Seq::empty(),
        }
    }
}

/// What is known of the schema: the current and the latest version,
/// whether they agree, the pending and the applied migrations.
#[derive(Debug, Clone)]
pub struct SchemaVersion {
    pub current_version: i32,
    pub latest_available: i32,
    pub is_up_to_date: bool,
    pub pending_migrations: Vec<Migration>,
    pub applied_migrations: Vec<MigrationRecord>,
}

impl MigrationManager {
    /// The highest registered version, or 0 when none is registered.
    pub fn latest_available(&self) -> (res: i32)
        requires
            self.well_formed(),
        ensures
            self@.dom().len() == 0 ==> res == 0,
            self@.dom().len() > 0 ==> self@.contains_key(res) && forall|w: i32| self@.contains_key(w) ==> w <= res,
    {
        if self.versions.len() == 0 {
            proof {
                assert forall|w: i32| !self@.contains_key(w) by {
                    if self@.contains_key(w) {
                        assert(self.versions@.contains(w));
                    }
                }
                assert(self@.dom() =~= Set::<i32>::empty());
            }
            0
        } else {
            let n = self.versions.len();
            let best = self.versions[n - 1];
            proof {
                assert(self@.contains_key(best));
                assert forall|w: i32| self@.contains_key(w) implies w <= best by {
                    assert(self.versions@.contains(w));
                    let k = choose|k: int| 0 <= k < self.versions@.len() && self.versions@[k] == w;
                    if k < n - 1 {
                        assert(self.versions@[k] < self.versions@[n - 1]);
                    }
                }
                assert(self@.dom().contains(best));
                vstd::std_specs::hash::axiom_hashmap_view_finite_dom(self.migrations);
                assert(self@.dom() =~= self.migrations@.dom());
                if self@.dom().len() == 0 {
                    self@.dom().lemma_len0_is_empty();
                }
            }
            best
        }
    }

    /// The migrations above `current_version`, in increasing version order.
    pub fn pending_migrations(&self, current_version: i32) -> (res: Vec<Migration>)
        requires
            self.well_formed(),
        ensures
            increasing(res@.map_values(|m: Migration| m.version)),
            forall|i: int| 0 <= i < res.len() ==> #[trigger] self@.contains_key(res@[i].version)
                && self@[res@[i].version] == migration_view(res@[i]) && res@[i].version > current_version,
            forall|v: i32| self@.contains_key(v) && v > current_version ==> res@.map_values(|m: Migration| m.version).contains(v),
    {
        let n = self.versions.len();
        let mut p: usize = 0;
        while p < n && self.versions[p] <= current_version
            invariant
                p <= n,
                n == self.versions.len(),
                forall|k: int| 0 <= k < p ==> self.versions@[k] <= current_version,
            decreases n - p,
        {
            p += 1;
        }
        let mut out: Vec<Migration> = Vec::new();
        let mut i: usize = p;
        while i < n
            invariant
                p <= i <= n,
                n == self.versions.len(),
                self.well_formed(),
                p == n || self.versions@[p as int] > current_version,
                out.len() == i - p,
                forall|a: int| 0 <= a < out.len() ==> (#[trigger] out@[a]).version == self.versions@[p + a],
                forall|a: int| 0 <= a < out.len() ==> self@[#[trigger] out@[a].version] == migration_view(out@[a]),
            decreases n - i,
        {
            let v = self.versions[i];
            assert(self.migrations@.contains_key(v));
            let m = self.migrations.get(&v).unwrap();
            let c = copy_migration(m);
            out.push(c);
            i += 1;
        }
        proof {
            let vs = out@.map_values(|m: Migration| m.version);
            assert forall|a: int, b: int| 0 <= a < b < vs.len() implies vs[a] < vs[b] by {
                assert(vs[a] == self.versions@[p + a]);
                assert(vs[b] == self.versions@[p + b]);
            }
            assert forall|a: int| 0 <= a < out.len() implies #[trigger] self@.contains_key(out@[a].version)
                && self@[out@[a].version] == migration_view(out@[a]) && out@[a].version > current_version by {
                assert(out@[a].version == self.versions@[p + a]);
                if a > 0 {
                    assert(self.versions@[p as int] < self.versions@[p + a]);
                }
            }
            assert forall|v: i32| self@.contains_key(v) && v > current_version implies vs.contains(v) by {
                assert(self.versions@.contains(v));
                let k = choose|k: int| 0 <= k < self.versions@.len() && self.versions@[k] == v;
                if k < p {
                    assert(self.versions@[k] <= current_version);
                }
                assert(vs[k - p] == v);
            }
        }
        out
    }

    /// The migration registered under `version`.
    pub fn migration(&self, version: i32) -> (res: Option<&Migration>)
        ensures
            res is Some <==> self@.contains_key(version),
            res matches Some(m) ==> self@[version] == migration_view(*m),
    {
        self.migrations.get(&version)
    }

    /// The migration to roll back for `version`: it must be registered and
    /// have a rollback script with more than whitespace.
    pub fn rollback_target(&self, version: i32) -> (res: Result<&Migration, RollbackError>)
        ensures
            !self@.contains_key(version) ==> res == Err::<&Migration, RollbackError>(RollbackError::NotFound(version)),
            self@.contains_key(version) && trim(self@[version].4).len() == 0 ==> res == Err::<&Migration, RollbackError>(RollbackError::NoRollbackSql(version)),
            self@.contains_key(version) && trim(self@[version].4).len() > 0 ==> (res matches Ok(m) && self@[version] == migration_view(*m)),
    {
        match self.migrations.get(&version) {
            None => Err(RollbackError::NotFound(version)),
            Some(m) => {
                let d = trim_chars(&chars_of(m.down_sql.as_str()));
                if d.len() == 0 {
                    Err(RollbackError::NoRollbackSql(version))
                } else {
                    Ok(m)
                }
            },
        }
    }

    /// The integrity problems of the applied migrations: those not
    /// registered, and those whose checksum differs from the registered one.
    pub fn verify_integrity(&self, applied: &Vec<MigrationRecord>) -> (res: Vec<String>)
        ensures
            res@.map_values(|t: String| t@) == integrity_issues(self@, applied@),
    {
        let mut issues: Vec<String> = Vec::new();
        let mut i: usize = 0;
        while i < applied.len()
            invariant
                i <= applied.len(),
                issues@.map_values(|t: String| t@) == integrity_issues(self@, applied@.take(i as int)),
            decreases applied.len() - i,
        {
            let rec = &applied[i];
            assert(applied@.take(i + 1).drop_last() == applied@.take(i as int));
            assert(applied@.take(i + 1).last() == *rec);
            let ghost before = issues@;
            let vtext = decimal_text(rec.version as i64);
            match self.migrations.get(&rec.version) {
                None => {
                    let mut out: Vec<char> = Vec::new();
                    append_chars(&mut out, &chars_of("Applied migration "));
                    append_chars(&mut out, &chars_of(vtext.as_str()));
                    append_chars(&mut out, &chars_of(" not found in registered migrations"));
                    let msg = string_from_chars(&out);
                    issues.push(msg);
                    assert(issues@.map_values(|t: String| t@) == before.map_values(|t: String| t@).push(msg@));
                },
                Some(m) => {
                    if !str_eq(m.checksum.as_str(), rec.checksum.as_str()) {
                        let mut out: Vec<char> = Vec::new();
                        append_chars(&mut out, &chars_of("Migration "));
                        append_chars(&mut out, &chars_of(vtext.as_str()));
                        append_chars(&mut out, &chars_of(" checksum mismatch: expected '"));
                        append_chars(&mut out, &chars_of(m.checksum.as_str()));
                        append_chars(&mut out, &chars_of("', found '"));
                        append_chars(&mut out, &chars_of(rec.checksum.as_str()));
                        append_chars(&mut out, &chars_of("'"));
                        let msg = string_from_chars(&out);
                        issues.push(msg);
                        assert(issues@.map_values(|t: String| t@) == before.map_values(|t: String| t@).push(msg@));
                    }
                },
            }
            i += 1;
        }
        assert(applied@.take(applied.len() as int) == applied@);
        issues
    }
}


/// The content of the migration shipped with the application under
/// version `v` (1 to 5).
pub open spec fn builtin_migration(v: i32) -> MigrationView {
    if v == 1 {
        (1, "add_performance_indexes"@, "Add database indexes for improved query performance"@, MIGRATION_1_UP@, MIGRATION_1_DOWN@, "performance_indexes_v1"@)
    } else if v == 2 {
        (2, "add_dynamic_keywords"@, "Add tables for dynamic keyword tracking and market analysis"@, MIGRATION_2_UP@, MIGRATION_2_DOWN@, "dynamic_keywords_v1"@)
    } else if v == 3 {
        (3, "add_ml_optimization"@, "Add tables for ML optimization tracking and user learning patterns"@, MIGRATION_3_UP@, MIGRATION_3_DOWN@, "ml_optimization_v1"@)
    } else if v == 4 {
        (4, "add_context_matching_cache"@, "Add caching tables for context-aware matching results"@, MIGRATION_4_UP@, MIGRATION_4_DOWN@, "context_matching_cache_v1"@)
    } else {
        (5, "add_document_versioning"@, "Add version tracking and metadata for parsed documents"@, MIGRATION_5_UP@, MIGRATION_5_DOWN@, "document_versioning_v1"@)
    }
}

impl MigrationManager {
    /// Registers the five migrations shipped with the application.
    pub fn register_migrations(&mut self)
        requires
            old(self).well_formed(),
        ensures
            final(self).well_formed(),
            final(self)@ == old(self)@.insert(1, builtin_migration(1)).insert(2, builtin_migration(2)).insert(
                3,
                builtin_migration(3),
            ).insert(4, builtin_migration(4)).insert(5, builtin_migration(5)),
    {
        self.register_migration(Migration {
            version: 1,
            name: "add_performance_indexes".to_owned(),
            description: "Add database indexes for improved query performance".to_owned(),
            up_sql: MIGRATION_1_UP.to_owned(),
            down_sql: MIGRATION_1_DOWN.to_owned(),
            checksum: "performance_indexes_v1".to_owned(),
        });
        self.register_migration(Migration {
            version: 2,
            name: "add_dynamic_keywords".to_owned(),
            description: "Add tables for dynamic keyword tracking and market analysis".to_owned(),
            up_sql: MIGRATION_2_UP.to_owned(),
            down_sql: MIGRATION_2_DOWN.to_owned(),
            checksum: "dynamic_keywords_v1".to_owned(),
        });
        self.register_migration(Migration {
            version: 3,
            name: "add_ml_optimization".to_owned(),
            description: "Add tables for ML optimization tracking and user learning patterns".to_owned(),
            up_sql: MIGRATION_3_UP.to_owned(),
            down_sql: MIGRATION_3_DOWN.to_owned(),
            checksum: "ml_optimization_v1".to_owned(),
        });
        self.register_migration(Migration {
            version: 4,
            name: "add_context_matching_cache".to_owned(),
            description: "Add caching tables for context-aware matching results".to_owned(),
            up_sql: MIGRATION_4_UP.to_owned(),
            down_sql: MIGRATION_4_DOWN.to_owned(),
            checksum: "context_matching_cache_v1".to_owned(),
        });
        self.register_migration(Migration {
            version: 5,
            name: "add_document_versioning".to_owned(),
            description: "Add version tracking and metadata for parsed documents".to_owned(),
            up_sql: MIGRATION_5_UP.to_owned(),
            down_sql: MIGRATION_5_DOWN.to_owned(),
            checksum: "document_versioning_v1".to_owned(),
        });
    }

    /// What is known of the schema at `current_version`, given the applied
    /// migrations read from the database.
    pub fn schema_version(&self, current_version: i32, applied_migrations: Vec<MigrationRecord>) -> (res: SchemaVersion)
        requires
            self.well_formed(),
        ensures
            res.current_version == current_version,
            self@.dom().len() == 0 ==> res.latest_available == 0,
            self@.dom().len() > 0 ==> self@.contains_key(res.latest_available) && forall|w: i32| self@.contains_key(w) ==> w <= res.latest_available,
            res.is_up_to_date == (current_version == res.latest_available),
            increasing(res.pending_migrations@.map_values(|m: Migration| m.version)),
            forall|i: int| 0 <= i < res.pending_migrations.len() ==> #[trigger] self@.contains_key(res.pending_migrations@[i].version)
                && self@[res.pending_migrations@[i].version] == migration_view(res.pending_migrations@[i])
                && res.pending_migrations@[i].version > current_version,
            forall|v: i32| self@.contains_key(v) && v > current_version ==> res.pending_migrations@.map_values(|m: Migration| m.version).contains(v),
            res.applied_migrations@ == applied_migrations@,
    {
        let latest_available = self.latest_available();
        let pending_migrations = self.pending_migrations(current_version);
        assert forall|i: int| 0 <= i < pending_migrations.len() implies #[trigger] self@.contains_key(pending_migrations@[i].version)
            && self@[pending_migrations@[i].version] == migration_view(pending_migrations@[i])
            && pending_migrations@[i].version > current_version by {
            assert(self@.contains_key(pending_migrations@[i].version));
        }
        SchemaVersion {
            current_version,
            latest_available,
            is_up_to_date: current_version == latest_available,
            pending_migrations,
            applied_migrations,
        }
    }
}


/// A migration just registered is found under its version, and every other
/// version keeps what it had.
pub proof fn law_registered_migration_is_found(before: Map<i32, MigrationView>, m: MigrationView, other: i32)
    requires
        other != m.0,
    ensures
        before.insert(m.0, m).contains_key(m.0),
        before.insert(m.0, m)[m.0] == m,
        before.insert(m.0, m).contains_key(other) == before.contains_key(other),
        before.contains_key(other) ==> before.insert(m.0, m)[other] == before[other],
{
}

} // verus!
