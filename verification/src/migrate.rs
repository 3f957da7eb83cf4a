//! Decisions taken while applying migrations: which table records the applied
//! migrations, how it is queried, and which migrations still have to be applied.
use vstd::prelude::*;

verus! {

/// Options for running migrations
pub struct MigrateOptions {
    /// Directory, migrations exist in
    pub migration_dir: String,
    /// Path to the database configuration file
    pub database_config: String,
    /// Log all SQL statements
    pub log_queries: bool,
}

/// Why the migrations can not be applied.
#[derive(Debug)]
pub enum PlanError {
    /// The last applied migration (its id is held) is not among the existing migrations:
    /// there is no way to tell what to do next without damaging data.
    LastMigrationNotFound(String),
}

/// The name of the table recording applied migrations when the configuration names none.
pub open spec fn default_last_migration_table() -> Seq<char> {
    seq![
        '_', 'r', 'o', 'r', 'm', '_', '_', 'l', 'a', 's', 't', '_', 'm', 'i', 'g', 'r', 'a',
        't', 'i', 'o', 'n',
    ]
}

/// The table recording applied migrations: the configured one, or `_rorm__last_migration`.
pub fn last_migration_table_name(configured: Option<String>) -> (r: String)
    ensures
        r@ == match configured {
            Some(s) => s@,
            None => default_last_migration_table(),
        },
{
    match configured {
        None => {
            let r = String::from_str("_rorm__last_migration");
            proof {
                reveal_strlit("_rorm__last_migration");
            }
            assert(r@ =~= default_last_migration_table());
            r
        },
        Some(s) => s,
    }
}

/// The query reading the id of the most recently applied migration from `table`.
pub open spec fn last_migration_query_text(table: Seq<char>) -> Seq<char> {
    "SELECT migration_name FROM "@ + table + " ORDER BY id DESC LIMIT 1;"@
}

/// Builds `SELECT migration_name FROM {table} ORDER BY id DESC LIMIT 1;`.
pub fn last_migration_query(table: &str) -> (r: String)
    ensures
        r@ == last_migration_query_text(table@),
{
    let mut q = String::from_str("SELECT migration_name FROM ");
    q.append(table);
    q.append(" ORDER BY id DESC LIMIT 1;");
    q
}

/// The index of the first migration whose id is `id`, if there is one.
pub open spec fn first_index_of(ids: Seq<Seq<char>>, id: Seq<char>) -> Option<int> {
    if exists|j: int| 0 <= j < ids.len() && #[trigger] ids[j] == id {
        Some(
            choose|j: int|
                0 <= j < ids.len() && #[trigger] ids[j] == id && forall|k: int|
                    0 <= k < j ==> ids[k] != id,
        )
    } else {
        None
    }
}

/// The contents of a list of strings.
pub open spec fn ids_of(v: Seq<String>) -> Seq<Seq<char>> {
    v.map_values(|s: String| s@)
}

/// Decides which of the `existing` migrations (in order) are applied, given the id of
/// the last applied one: `Ok(start)` means those from index `start` on.
///
/// With none applied yet, all of them are; otherwise those after the first migration
/// with that id. If no migration has that id, nothing is applied and an error is returned.
pub fn plan_migrations(existing: &Vec<String>, last_applied: Option<String>) -> (r: Result<
    usize,
    PlanError,
>)
    ensures
        last_applied is None ==> (r matches Ok(start) && start == 0),
        last_applied matches Some(id) ==> match first_index_of(ids_of(existing@), id@) {
            Some(j) => r matches Ok(start) && start == j + 1,
            None => r matches Err(PlanError::LastMigrationNotFound(e)) && e@ == id@,
        },
{
    let ghost ids = ids_of(existing@);
    match last_applied {
        None => Ok(0),
        Some(id) => {
            let mut i: usize = 0;
            while i < existing.len()
                invariant
                    i <= existing@.len(),
                    ids == ids_of(existing@),
                    last_applied == Some(id),
                    forall|k: int| 0 <= k < i ==> ids[k] != id@,
                decreases existing@.len() - i,
            {
                if existing[i] == id {
                    proof {
                        assert(existing@[i as int]@ == id@);
                        assert(ids[i as int] == id@);
                        let j = choose|j: int|
                            0 <= j < ids.len() && #[trigger] ids[j] == id@ && forall|k: int|
                                0 <= k < j ==> ids[k] != id@;
                        assert(0 <= j < ids.len() && ids[j] == id@ && forall|k: int|
                            0 <= k < j ==> ids[k] != id@);
                        if j < i {
                            assert(ids[j] != id@);
                        }
                        if j > i {
                            assert(ids[i as int] != id@);
                        }
                    }
                    assert(first_index_of(ids, id@) == Some(i as int));
                    return Ok(i + 1);
                }
                i = i + 1;
            }
            assert(!(exists|j: int| 0 <= j < ids.len() && #[trigger] ids[j] == id@));
            Err(PlanError::LastMigrationNotFound(id))
        },
    }
}

/// When the last applied migration is the newest one and no two migrations share an id,
/// running the migrations again applies none of them: it starts past the end.
pub proof fn lemma_rerun_applies_nothing(ids: Seq<Seq<char>>)
    requires
        ids.len() > 0,
        forall|a: int, b: int| 0 <= a < b < ids.len() ==> ids[a] != ids[b],
    ensures
        first_index_of(ids, ids.last()) == Some(ids.len() - 1),
{
    let last = ids.len() - 1;
    assert(ids[last] == ids.last());
    let j = choose|j: int|
        0 <= j < ids.len() && #[trigger] ids[j] == ids.last() && forall|k: int|
            0 <= k < j ==> ids[k] != ids.last();
    assert(0 <= j < ids.len() && ids[j] == ids.last());
    if j < last {
        assert(ids[j] != ids[last]);
    }
}

} // verus!
