//! Builder for update queries
use vstd::prelude::*;
use std::marker::PhantomData;

use crate::conditions::{sql_matches, SqlValue, Value, ValueView};

verus! {

/// The abstract content of a list of columns to set.
pub open spec fn columns_view(columns: Seq<(&'static str, Value)>) -> Seq<(&'static str, ValueView)> {
    columns.map_values(|c: (&'static str, Value)| (c.0, c.1@))
}

/// Wrapper around `Vec` to indicate on type level, that possibly no column has been set yet.
pub struct OptionalColumns(pub Vec<(&'static str, Value)>);

/// Builder for update queries
///
/// ## Generics
/// - `E`: the executor to query with.
/// - `M`: the model from whose table to update rows.
/// - `L`: list of columns and values to set.
///     This is a generic instead of just being a `Vec` in order to prevent the list from being empty.
pub struct UpdateBuilder<E, M, L> {
    executor: E,
    columns: L,
    _phantom: PhantomData<M>,
}

impl<E, M, L> UpdateBuilder<E, M, L> {
    /// The executor the query will run on.
    pub closed spec fn executor(&self) -> E {
        self.executor
    }

    /// The columns collected so far.
    pub closed spec fn columns(&self) -> L {
        self.columns
    }
}

impl<E, M> UpdateBuilder<E, M, ()> {
    /// Start building an update query
    pub fn new(executor: E) -> (b: Self)
        ensures
            b.executor() == executor,
    {
        UpdateBuilder { executor, columns: (), _phantom: PhantomData }
    }

    /// Prepare the builder to accept a dynamic (possibly zero) amount of set calls.
    ///
    /// Call [`finish_dyn_set`](UpdateBuilder::finish_dyn_set) to go back to normal operation.
    pub fn begin_dyn_set(self) -> (b: UpdateBuilder<E, M, OptionalColumns>)
        ensures
            b.executor() == self.executor(),
            b.columns().0@.len() == 0,
    {
        let UpdateBuilder { executor, _phantom, .. } = self;
        UpdateBuilder { executor, columns: OptionalColumns(Vec::new()), _phantom }
    }

    /// Add a column to update, switching to a builder which has at least one column.
    pub fn set(self, column: &'static str, value: Value) -> (b: UpdateBuilder<
        E,
        M,
        Vec<(&'static str, Value)>,
    >)
        ensures
            b.executor() == self.executor(),
            columns_view(b.columns()@) == seq![(column, value@)],
    {
        let UpdateBuilder { executor, _phantom, .. } = self;
        let columns = vec![(column, value)];
        assert(columns_view(columns@) =~= seq![(column, value@)]);
        UpdateBuilder { executor, columns, _phantom }
    }
}

impl<E, M> UpdateBuilder<E, M, OptionalColumns> {
    /// Add a column to update.
    ///
    /// Can be called multiple times.
    pub fn set(self, column: &'static str, value: Value) -> (b: Self)
        ensures
            b.executor() == self.executor(),
            columns_view(b.columns().0@) == columns_view(self.columns().0@).push((column, value@)),
    {
        let mut builder = self;
        let ghost before = builder.columns.0@;
        builder.columns.0.push((column, value));
        assert(columns_view(builder.columns.0@) =~= columns_view(before).push((column, value@)));
        builder
    }

    /// Add a column to update if `value` is `Some`
    ///
    /// Can be called multiple times.
    pub fn set_if(self, column: &'static str, value: Option<Value>) -> (b: Self)
        ensures
            b.executor() == self.executor(),
            match value {
                Some(v) => columns_view(b.columns().0@) == columns_view(self.columns().0@).push(
                    (column, v@),
                ),
                None => b == self,
            },
    {
        if let Some(value) = value {
            self.set(column, value)
        } else {
            self
        }
    }

    /// Go back to a "normal" builder after calling [`begin_dyn_set`](UpdateBuilder::begin_dyn_set).
    ///
    /// This will check if `set` has been called at least once.
    /// If it hasn't, the "unset" builder will be returned as `Err`.
    pub fn finish_dyn_set(self) -> (r: Result<
        UpdateBuilder<E, M, Vec<(&'static str, Value)>>,
        UpdateBuilder<E, M, ()>,
    >)
        ensures
            r is Ok <==> self.columns().0@.len() > 0,
            r matches Ok(b) ==> b.executor() == self.executor() && b.columns()@
                == self.columns().0@,
            r matches Err(b) ==> b.executor() == self.executor(),
    {
        let UpdateBuilder { executor, _phantom, columns } = self;
        if columns.0.len() == 0 {
            Err(UpdateBuilder { executor, columns: (), _phantom })
        } else {
            Ok(UpdateBuilder { executor, columns: columns.0, _phantom })
        }
    }
}

impl<E, M> UpdateBuilder<E, M, Vec<(&'static str, Value)>> {
    /// Add a column to update.
    ///
    /// Can be called multiple times.
    pub fn set(self, column: &'static str, value: Value) -> (b: Self)
        ensures
            b.executor() == self.executor(),
            columns_view(b.columns()@) == columns_view(self.columns()@).push((column, value@)),
    {
        let mut builder = self;
        let ghost before = builder.columns@;
        builder.columns.push((column, value));
        assert(columns_view(builder.columns@) =~= columns_view(before).push((column, value@)));
        builder
    }

    /// The columns and values to set, in the form handed to the SQL layer.
    pub fn columns_as_sql(&self) -> (r: Vec<(&'static str, SqlValue<'_>)>)
        ensures
            r@.len() == self.columns()@.len(),
            forall|i: int|
                #![trigger r@[i]]
                0 <= i < r@.len() ==> r@[i].0 == self.columns()@[i].0 && sql_matches(
                    self.columns()@[i].1@,
                    r@[i].1,
                ),
    {
        let mut out: Vec<(&'static str, SqlValue)> = Vec::new();
        let mut i: usize = 0;
        while i < self.columns.len()
            invariant
                0 <= i <= self.columns@.len(),
                out@.len() == i,
                forall|k: int|
                    #![trigger out@[k]]
                    0 <= k < i ==> out@[k].0 == self.columns@[k].0 && sql_matches(
                        self.columns@[k].1@,
                        out@[k].1,
                    ),
            decreases self.columns@.len() - i,
        {
            let (name, value) = &self.columns[i];
            out.push((*name, value.as_sql()));
            i += 1;
        }
        out
    }

    /// Split the builder into its executor and the columns to set.
    pub fn into_parts(self) -> (r: (E, Vec<(&'static str, Value)>))
        ensures
            r.0 == self.executor(),
            r.1 == self.columns(),
    {
        (self.executor, self.columns)
    }
}

} // verus!
