//! Builders for SQL statements of the different dialects.
use vstd::prelude::*;

use crate::conditions::SqlValue;
use crate::imr::DbType;

verus! {

/// The main interface for creating sql strings
#[derive(Copy, Clone, Debug, PartialEq, Eq, Structural)]
pub enum DBImpl {
    /// Implementation of SQLite
    SQLite,
    /// Implementation of Postgres
    Postgres,
    /// Implementation of MySQL / MariaDB
    MySQL,
}

/// Representation of a CREATE TABLE statement.
pub struct SQLCreateTable<'post_build> {
    /// The dialect to build for
    pub dialect: DBImpl,
    /// Name of the table
    pub name: String,
    /// Definitions of the table's columns
    pub columns: Vec<String>,
    /// Only create the table if it does not exist yet
    pub if_not_exists: bool,
    /// Values bound to the statement
    pub lookup: Vec<SqlValue<'post_build>>,
    /// Statements to run after this one, with their bound values
    pub trigger: Vec<(String, Vec<SqlValue<'post_build>>)>,
}

/// When a trigger runs relative to its operation.
#[derive(Copy, Clone, Debug, PartialEq, Eq, Structural)]
pub enum SQLCreateTriggerPointInTime {
    /// Before the operation
    Before,
    /// After the operation
    After,
    /// Instead of the operation
    InsteadOf,
}

/// The operation which invokes a trigger.
#[derive(Clone, Debug)]
pub enum SQLCreateTriggerOperation {
    /// Deleting a row
    Delete,
    /// Inserting a row
    Insert,
    /// Updating a row, possibly only the given columns
    Update {
        /// The columns whose update invokes the trigger
        columns: Option<Vec<String>>,
    },
}

/// Representation of a CREATE TRIGGER statement.
pub struct SQLCreateTrigger {
    /// The dialect to build for
    pub dialect: DBImpl,
    /// Name of the trigger
    pub name: String,
    /// Name of the table the trigger is created on
    pub table_name: String,
    /// Only create the trigger if it does not exist yet
    pub if_not_exists: bool,
    /// When to execute the trigger
    pub point_in_time: Option<SQLCreateTriggerPointInTime>,
    /// The operation that invokes the trigger
    pub operation: SQLCreateTriggerOperation,
    /// The statements the trigger runs
    pub statements: Vec<String>,
}

/// Representation of a CREATE INDEX statement.
pub struct SQLCreateIndex {
    /// The dialect to build for
    pub dialect: DBImpl,
    /// Name of the index
    pub name: String,
    /// Name of the table the index is created on
    pub table_name: String,
    /// Create a unique index
    pub unique: bool,
    /// Only create the index if it does not exist yet
    pub if_not_exists: bool,
    /// The indexed columns
    pub columns: Vec<String>,
    /// The condition of a partial index
    pub condition: Option<String>,
}

/// Representation of a transaction.
pub struct SQLTransaction {
    /// The dialect to build for
    pub dialect: DBImpl,
    /// The statements run in the transaction
    pub statements: Vec<String>,
}

/// Representation of a DROP TABLE statement.
pub struct SQLDropTable {
    /// The dialect to build for
    pub dialect: DBImpl,
    /// Name of the table to drop
    pub name: String,
    /// Only drop the table if it exists
    pub if_exists: bool,
}

/// Representation of a SELECT statement.
pub struct SQLSelect<'until_build, 'post_build> {
    /// The dialect to build for
    pub dialect: DBImpl,
    /// The columns to select
    pub resulting_columns: &'until_build [&'until_build str],
    /// What to select from
    pub from_clause: String,
    /// The WHERE clause
    pub where_clause: Option<String>,
    /// Maximum number of rows
    pub limit: Option<u64>,
    /// Number of rows to skip
    pub offset: Option<u64>,
    /// Select distinct rows only
    pub distinct: bool,
    /// Values bound to the statement
    pub lookup: Vec<SqlValue<'post_build>>,
}

/// Representation of a DELETE statement.
pub struct SQLDelete<'until_build, 'post_build> {
    /// The dialect to build for
    pub dialect: DBImpl,
    /// Name of the table to delete from
    pub model: &'until_build str,
    /// Values bound to the statement
    pub lookup: Vec<SqlValue<'post_build>>,
    /// The WHERE clause
    pub where_clause: Option<String>,
}

/// Representation of operations to execute in the context of an ALTER TABLE statement.
pub enum SQLAlterTableOperation {
    /// Use this operation to rename a table
    RenameTo {
        /// New name of the table
        name: String,
    },
    /// Use this operation to rename a column within a table
    RenameColumnTo {
        /// Current column name
        column_name: String,
        /// New column name
        new_column_name: String,
    },
    /// Use this operation to drop an existing column.
    DropColumn {
        /// Name of the column to drop
        name: String,
    },
}

/// Representation of an ALTER TABLE statement.
pub struct SQLAlterTable<'post_build> {
    /// The dialect to build for
    pub(crate) dialect: DBImpl,
    /// Name of the table to operate on
    pub(crate) name: String,
    /// Operation to execute
    pub(crate) operation: SQLAlterTableOperation,
    pub(crate) lookup: Vec<SqlValue<'post_build>>,
    pub(crate) trigger: Vec<(String, Vec<SqlValue<'post_build>>)>,
}

/// An annotation of a column to create, borrowed from the column's declaration.
///
/// `A` is the declaration's annotation type.
pub struct SQLAnnotation<'post_build, A> {
    /// The annotation
    pub annotation: &'post_build A,
}

/// Representation of a column to create, in a CREATE TABLE or ALTER TABLE statement.
pub struct SQLCreateColumn<'post_build, A> {
    /// The dialect to build for
    pub dialect: DBImpl,
    /// Name of the column
    pub name: String,
    /// Name of the table the column belongs to
    pub table_name: String,
    /// The column's type
    pub data_type: DbType,
    /// The column's annotations, in order
    pub annotations: Vec<SQLAnnotation<'post_build, A>>,
}

/// What to do when an INSERT conflicts with an existing row.
#[derive(Copy, Clone, Debug, PartialEq, Eq, Structural)]
pub enum OnConflict {
    /// Abort the statement
    ABORT,
    /// Roll the transaction back
    ROLLBACK,
}

/// Representation of an INSERT statement.
pub struct SQLInsert<'until_build, 'post_build> {
    /// The dialect to build for
    pub dialect: DBImpl,
    /// The table to insert into
    pub into_clause: String,
    /// The columns to insert into
    pub columns: &'until_build [&'until_build str],
    /// The rows of values to insert
    pub row_values: &'until_build [&'until_build [SqlValue<'post_build>]],
    /// Values bound to the statement
    pub lookup: Vec<SqlValue<'post_build>>,
    /// What to do on a conflict
    pub on_conflict: OnConflict,
}

/// Whether `a` borrows, in order, each of `annotations`.
pub open spec fn borrows_each<'a, A>(a: Seq<SQLAnnotation<'a, A>>, annotations: Seq<A>) -> bool {
    &&& a.len() == annotations.len()
    &&& forall|i: int| 0 <= i < a.len() ==> *(#[trigger] a[i]).annotation == annotations[i]
}

impl DBImpl {
    /// The entry point to create a table.
    ///
    /// `name`: Name of the table
    pub fn create_table<'post_build>(&self, name: &str) -> (r: SQLCreateTable<'post_build>)
        requires
            *self == DBImpl::SQLite,
        ensures
            r.dialect == DBImpl::SQLite,
            r.name@ == name@,
            r.columns@.len() == 0,
            !r.if_not_exists,
            r.lookup@.len() == 0,
            r.trigger@.len() == 0,
    {
        SQLCreateTable {
            dialect: DBImpl::SQLite,
            name: String::from_str(name),
            columns: Vec::new(),
            if_not_exists: false,
            lookup: Vec::new(),
            trigger: Vec::new(),
        }
    }

    /// The entry point to create a trigger.
    ///
    /// `name`: Name of the trigger.
    /// `table_name`: Name of the table to create the trigger on.
    /// `point_in_time`: When to execute the trigger.
    /// `operation`: The operation that invokes the trigger.
    pub fn create_trigger(
        &self,
        name: &str,
        table_name: &str,
        point_in_time: Option<SQLCreateTriggerPointInTime>,
        operation: SQLCreateTriggerOperation,
    ) -> (r: SQLCreateTrigger)
        requires
            *self == DBImpl::SQLite,
        ensures
            r.dialect == DBImpl::SQLite,
            r.name@ == name@,
            r.table_name@ == table_name@,
            !r.if_not_exists,
            r.point_in_time == point_in_time,
            r.operation == operation,
            r.statements@.len() == 0,
    {
        SQLCreateTrigger {
            dialect: DBImpl::SQLite,
            name: String::from_str(name),
            table_name: String::from_str(table_name),
            if_not_exists: false,
            point_in_time,
            operation,
            statements: Vec::new(),
        }
    }

    /// The entry point to create an index.
    ///
    /// `name`: Name of the index.
    /// `table_name`: Table to create the index on.
    pub fn create_index(&self, name: &str, table_name: &str) -> (r: SQLCreateIndex)
        requires
            *self == DBImpl::SQLite,
        ensures
            r.dialect == DBImpl::SQLite,
            r.name@ == name@,
            r.table_name@ == table_name@,
            !r.unique,
            !r.if_not_exists,
            r.columns@.len() == 0,
            r.condition is None,
    {
        SQLCreateIndex {
            dialect: DBImpl::SQLite,
            name: String::from_str(name),
            table_name: String::from_str(table_name),
            unique: false,
            if_not_exists: false,
            columns: Vec::new(),
            condition: None,
        }
    }

    /// The entry point to start a transaction
    pub fn start_transaction(&self) -> (r: SQLTransaction)
        requires
            *self == DBImpl::SQLite,
        ensures
            r.dialect == DBImpl::SQLite,
            r.statements@.len() == 0,
    {
        SQLTransaction { dialect: DBImpl::SQLite, statements: Vec::new() }
    }

    /// The entry point to drop a table.
    ///
    /// `name`: Name of the table to drop.
    pub fn drop_table(&self, name: &str) -> (r: SQLDropTable)
        requires
            *self == DBImpl::SQLite,
        ensures
            r.dialect == DBImpl::SQLite,
            r.name@ == name@,
            !r.if_exists,
    {
        SQLDropTable { dialect: DBImpl::SQLite, name: String::from_str(name), if_exists: false }
    }

    /// The entry point to alter a table.
    ///
    /// `name`: Name of the table to execute the operation on.
    /// `operation`: The operation to execute.
    pub fn alter_table<'post_build>(&self, name: &str, operation: SQLAlterTableOperation) -> (r:
        SQLAlterTable<'post_build>)
        requires
            *self == DBImpl::SQLite,
        ensures
            r.dialect() == DBImpl::SQLite,
            r.table_name() == name@,
            r.op() == operation,
            r.bound().len() == 0,
            r.triggers().len() == 0,
    {
        SQLAlterTable {
            dialect: DBImpl::SQLite,
            name: String::from_str(name),
            operation,
            lookup: Vec::new(),
            trigger: Vec::new(),
        }
    }

    /// Build a select query.
    ///
    /// - `columns`: The columns to select.
    /// - `from_clause` specifies from what to select. This can be a table name or another query itself.
    pub fn select<'until_build, 'post_build>(
        &self,
        columns: &'until_build [&'until_build str],
        from_clause: &str,
    ) -> (r: SQLSelect<'until_build, 'post_build>)
        requires
            *self == DBImpl::SQLite,
        ensures
            r.dialect == DBImpl::SQLite,
            r.resulting_columns == columns,
            r.from_clause@ == from_clause@,
            r.where_clause is None,
            r.limit is None,
            r.offset is None,
            !r.distinct,
            r.lookup@.len() == 0,
    {
        SQLSelect {
            dialect: DBImpl::SQLite,
            resulting_columns: columns,
            from_clause: String::from_str(from_clause),
            where_clause: None,
            limit: None,
            offset: None,
            distinct: false,
            lookup: Vec::new(),
        }
    }

    /// The entry point to create a column in a table.
    ///
    /// - `table_name`: Name of the table.
    /// - `name`: Name of the column.
    /// - `data_type`: Data type of the column
    /// - `annotations`: List of annotations.
    pub fn create_column<'post_build, A>(
        &self,
        table_name: &str,
        name: &str,
        data_type: DbType,
        annotations: &'post_build [A],
    ) -> (r: SQLCreateColumn<'post_build, A>)
        requires
            *self == DBImpl::SQLite,
        ensures
            r.dialect == DBImpl::SQLite,
            r.name@ == name@,
            r.table_name@ == table_name@,
            r.data_type == data_type,
            borrows_each(r.annotations@, annotations@),
    {
        let mut borrowed: Vec<SQLAnnotation<'post_build, A>> = Vec::new();
        let mut i: usize = 0;
        while i < annotations.len()
            invariant
                i <= annotations@.len(),
                borrows_each(borrowed@, annotations@.take(i as int)),
            decreases annotations@.len() - i,
        {
            borrowed.push(SQLAnnotation { annotation: &annotations[i] });
            i = i + 1;
        }
        assert(annotations@.take(i as int) =~= annotations@);
        SQLCreateColumn {
            dialect: DBImpl::SQLite,
            name: String::from_str(name),
            table_name: String::from_str(table_name),
            data_type,
            annotations: borrowed,
        }
    }

    /// Build an INSERT query.
    ///
    /// - `into_clause`: The table to insert into.
    /// - `insert_columns`: The column names to insert into.
    /// - `insert_values`: The values to insert.
    pub fn insert<'until_build, 'post_build>(
        &self,
        into_clause: &str,
        insert_columns: &'until_build [&'until_build str],
        insert_values: &'until_build [&'until_build [SqlValue<'post_build>]],
    ) -> (r: SQLInsert<'until_build, 'post_build>)
        requires
            *self == DBImpl::SQLite,
        ensures
            r.dialect == DBImpl::SQLite,
            r.into_clause@ == into_clause@,
            r.columns == insert_columns,
            r.row_values == insert_values,
            r.lookup@.len() == 0,
            r.on_conflict == OnConflict::ABORT,
    {
        SQLInsert {
            dialect: DBImpl::SQLite,
            into_clause: String::from_str(into_clause),
            columns: insert_columns,
            row_values: insert_values,
            lookup: Vec::new(),
            on_conflict: OnConflict::ABORT,
        }
    }

    /// Build a delete operation.
    ///
    /// - `table_name`: Name of the table to delete from.
    pub fn delete<'until_build, 'post_build>(&self, table_name: &'until_build str) -> (r: SQLDelete<
        'until_build,
        'post_build,
    >)
        requires
            *self == DBImpl::SQLite,
        ensures
            r.dialect == DBImpl::SQLite,
            r.model == table_name,
            r.lookup@.len() == 0,
            r.where_clause is None,
    {
        SQLDelete {
            dialect: DBImpl::SQLite,
            model: table_name,
            lookup: Vec::new(),
            where_clause: None,
        }
    }
}

/// The SQL text of an ALTER TABLE operation.
pub open spec fn alter_operation_sql(operation: SQLAlterTableOperation) -> Seq<char> {
    match operation {
        SQLAlterTableOperation::RenameTo { name } => "RENAME TO "@ + name@,
        SQLAlterTableOperation::RenameColumnTo { column_name, new_column_name } => "RENAME COLUMN "@
            + column_name@ + " TO "@ + new_column_name@,
        SQLAlterTableOperation::DropColumn { name } => "DROP COLUMN "@ + name@,
    }
}

/// The values bound by all of `trigger`'s statements, one statement after another.
pub open spec fn trigger_values<'a>(trigger: Seq<(String, Vec<SqlValue<'a>>)>) -> Seq<SqlValue<'a>>
    decreases trigger.len(),
{
    if trigger.len() == 0 {
        Seq::empty()
    } else {
        trigger_values(trigger.drop_last()) + trigger.last().1@
    }
}

impl SQLAlterTableOperation {
    fn build(self, s: &mut String)
        ensures
            final(s)@ == old(s)@ + alter_operation_sql(self),
    {
        match self {
            SQLAlterTableOperation::RenameTo { name } => {
                s.append("RENAME TO ");
                s.append(name.as_str());
            },
            SQLAlterTableOperation::RenameColumnTo { column_name, new_column_name } => {
                s.append("RENAME COLUMN ");
                s.append(column_name.as_str());
                s.append(" TO ");
                s.append(new_column_name.as_str());
            },
            SQLAlterTableOperation::DropColumn { name } => {
                s.append("DROP COLUMN ");
                s.append(name.as_str());
            },
        }
    }
}

impl<'post_build> SQLAlterTable<'post_build> {
    /// The dialect to build for.
    pub closed spec fn dialect(&self) -> DBImpl {
        self.dialect
    }

    /// The name of the table to operate on.
    pub closed spec fn table_name(&self) -> Seq<char> {
        self.name@
    }

    /// The operation to execute.
    pub closed spec fn op(&self) -> SQLAlterTableOperation {
        self.operation
    }

    /// The values bound so far.
    pub closed spec fn bound(&self) -> Seq<SqlValue<'post_build>> {
        self.lookup@
    }

    /// The statements to run afterwards.
    pub closed spec fn triggers(&self) -> Seq<(String, Vec<SqlValue<'post_build>>)> {
        self.trigger@
    }

    /// This method is used to build the alter table statement.
    pub fn build(self) -> (r: (String, Vec<SqlValue<'post_build>>))
        ensures
            r.0@ == "ALTER TABLE "@ + self.table_name() + " "@ + alter_operation_sql(self.op()),
            r.1@ == self.bound() + trigger_values(self.triggers()),
    {
        let SQLAlterTable { dialect: _, name, operation, lookup, trigger } = self;
        let mut s = String::from_str("ALTER TABLE ");
        s.append(name.as_str());
        s.append(" ");
        operation.build(&mut s);
        let mut lookup = lookup;
        let mut i: usize = 0;
        while i < trigger.len()
            invariant
                0 <= i <= trigger@.len(),
                lookup@ == self.bound() + trigger_values(trigger@.take(i as int)),
                trigger@ == self.triggers(),
            decreases trigger@.len() - i,
        {
            assert(trigger@.take(i + 1).drop_last() =~= trigger@.take(i as int));
            let params = &trigger[i].1;
            let ghost before = lookup@;
            let mut j: usize = 0;
            while j < params.len()
                invariant
                    0 <= j <= params@.len(),
                    lookup@ == before + params@.take(j as int),
                decreases params@.len() - j,
            {
                lookup.push(params[j]);
                j += 1;
                assert(lookup@ =~= before + params@.take(j as int));
            }
            assert(params@.take(j as int) =~= params@);
            i += 1;
            assert(lookup@ =~= self.bound() + trigger_values(trigger@.take(i as int)));
        }
        assert(trigger@.take(i as int) =~= trigger@);
        (s, lookup)
    }
}

} // verus!
