//! The query context holds the data a query borrows while it is being built.
use vstd::prelude::*;
use std::collections::HashMap;

use crate::alias::{az_alias, az_valid, number_as_az};
use crate::conditions::{
    BinaryOperator, CollectionOperator, Condition, TernaryOperator, UnaryOperator, Value, ValueView,
};

verus! {

/// Globally unique id for a relation path
#[derive(Copy, Clone, Debug, PartialEq, Eq, Structural, PartialOrd, Ord, Hash)]
pub struct PathId(pub u64);

/// One node of a condition tree stored in prefix order.
#[derive(Copy, Clone, Debug)]
pub enum FlatCondition {
    /// A binary operator, followed by its two arguments
    BinaryCondition(BinaryOperator),
    /// A ternary operator, followed by its three arguments
    TernaryCondition(TernaryOperator),
    /// A unary operator, followed by its argument
    UnaryCondition(UnaryOperator),
    /// The start of a collection, followed by its members and an `EndCollection`
    StartCollection(CollectionOperator),
    /// The end of a collection
    EndCollection,
    /// The value at this index in the context's values
    Value(usize),
    /// A column of the table joined under a path
    Column(PathId, &'static str),
}

/// An aggregation function applied to a selected column
#[derive(Copy, Clone, Debug, PartialEq, Eq, Structural)]
pub enum SelectAggregator {
    /// Average
    Avg,
    /// Number of non-null values
    Count,
    /// Sum
    Sum,
    /// Maximum
    Max,
    /// Minimum
    Min,
}

/// Direction to sort by
#[derive(Copy, Clone, Debug, PartialEq, Eq, Structural)]
pub enum SortOrder {
    /// Ascending
    Asc,
    /// Descending
    Desc,
}

/// A selected column
#[derive(Clone, Debug)]
pub struct Select {
    /// The path whose table the column belongs to
    pub table_name: PathId,
    /// The column's name
    pub column_name: &'static str,
    /// The alias the column is selected under
    pub select_alias: String,
    /// The aggregation applied to it
    pub aggregation: Option<SelectAggregator>,
}

/// A joined table
#[derive(Clone, Debug)]
pub struct Join {
    /// The joined table
    pub table_name: &'static str,
    /// The path the join is recorded under
    pub join_alias: PathId,
    /// The index of the join's condition
    pub join_condition: usize,
}

/// A column to order by
#[derive(Clone, Debug)]
pub struct OrderBy {
    /// The column's name
    pub column_name: &'static str,
    /// The path whose table the column belongs to
    pub table_name: PathId,
    /// The direction
    pub ordering: SortOrder,
}

/// Context for creating queries.
///
/// This struct owns all the implicit data required to query something i.e. join and alias information.
pub struct QueryContext {
    base_path: Option<PathId>,
    join_aliases: HashMap<u64, String>,
    selects: Vec<Select>,
    joins: Vec<Join>,
    order_bys: Vec<OrderBy>,
    conditions: Vec<FlatCondition>,
    values: Vec<Value>,
}

impl QueryContext {
    /// The condition nodes held.
    pub closed spec fn conditions(&self) -> Seq<FlatCondition> {
        self.conditions@
    }

    /// The values held.
    pub closed spec fn values(&self) -> Seq<ValueView> {
        self.values@.map_values(|v: Value| v@)
    }

    /// The selected columns.
    pub closed spec fn selects(&self) -> Seq<Select> {
        self.selects@
    }

    /// The joined tables.
    pub closed spec fn joins(&self) -> Seq<Join> {
        self.joins@
    }

    /// The columns to order by.
    pub closed spec fn order_bys(&self) -> Seq<OrderBy> {
        self.order_bys@
    }

    /// The aliases given to paths, by the paths' numbers.
    pub closed spec fn join_aliases(&self) -> Map<u64, Seq<char>> {
        self.join_aliases@.map_values(|a: String| a@)
    }

    /// The path every path is currently appended to.
    pub closed spec fn base_path(&self) -> Option<PathId> {
        self.base_path
    }

    /// `self` and `other` agree on everything but conditions and values.
    pub open spec fn same_except_conditions(&self, other: QueryContext) -> bool {
        &&& self.selects() == other.selects()
        &&& self.joins() == other.joins()
        &&& self.order_bys() == other.order_bys()
        &&& self.join_aliases() == other.join_aliases()
        &&& self.base_path() == other.base_path()
    }

    /// Create an empty context
    pub fn new() -> (c: Self)
        ensures
            c.conditions() == Seq::<FlatCondition>::empty(),
            c.values() == Seq::<ValueView>::empty(),
            c.selects() == Seq::<Select>::empty(),
            c.joins() == Seq::<Join>::empty(),
            c.order_bys() == Seq::<OrderBy>::empty(),
            c.join_aliases() == Map::<u64, Seq<char>>::empty(),
            c.base_path() == Option::<PathId>::None,
    {
        QueryContext {
            base_path: None,
            join_aliases: HashMap::new(),
            selects: Vec::new(),
            joins: Vec::new(),
            order_bys: Vec::new(),
            conditions: Vec::new(),
            values: Vec::new(),
        }
    }

    /// The number of values held.
    pub fn values_len(&self) -> (n: usize)
        ensures
            n == self.values().len(),
    {
        self.values.len()
    }

    /// The number of condition nodes held.
    pub fn conditions_len(&self) -> (n: usize)
        ensures
            n == self.conditions().len(),
    {
        self.conditions.len()
    }

    /// Append a value.
    pub(crate) fn push_value(&mut self, value: Value)
        ensures
            final(self).values() == old(self).values().push(value@),
            final(self).conditions() == old(self).conditions(),
            final(self).same_except_conditions(*old(self)),
    {
        self.values.push(value);
        assert(self.values@.map_values(|v: Value| v@) =~= old(self).values@.map_values(|v: Value| v@).push(value@));
    }

    /// Append a condition node.
    pub(crate) fn push_node(&mut self, node: FlatCondition)
        ensures
            final(self).conditions() == old(self).conditions().push(node),
            final(self).values() == old(self).values(),
            final(self).same_except_conditions(*old(self)),
    {
        self.conditions.push(node);
    }

    /// Adds a condition to the query context and returns its index,
    /// the position of its first node.
    pub fn add_condition<C: Condition>(&mut self, condition: &C) -> (index: usize)
        ensures
            index == old(self).conditions().len(),
            final(self).conditions() == old(self).conditions() + condition.nodes(
                old(self).values().len(),
            ),
            final(self).values() == old(self).values() + condition.values(),
            final(self).same_except_conditions(*old(self)),
    {
        let index = self.conditions.len();
        condition.build(self);
        index
    }
}

/// The alias recorded for the path `id` in `aliases`.
pub open spec fn alias_of(aliases: Map<u64, Seq<char>>, id: PathId) -> Option<Seq<char>> {
    if aliases.contains_key(id.0) {
        Some(aliases[id.0])
    } else {
        None
    }
}

/// A column selector in the form handed to the SQL layer.
#[derive(Clone, Debug)]
pub struct ColumnSelector<'a> {
    /// The alias of the table the column belongs to
    pub table_name: Option<&'a str>,
    /// The column's name
    pub column_name: &'static str,
    /// The alias the column is selected under
    pub select_alias: Option<&'a str>,
    /// The aggregation applied to it
    pub aggregation: Option<SelectAggregator>,
}

/// An entry of an ORDER BY clause in the form handed to the SQL layer.
#[derive(Clone, Debug)]
pub struct OrderByEntry<'a> {
    /// The direction
    pub ordering: SortOrder,
    /// The alias of the table the column belongs to
    pub table_name: Option<&'a str>,
    /// The column's name
    pub column_name: &'static str,
}

impl QueryContext {
    /// The number of selected columns.
    pub fn selects_len(&self) -> (n: usize)
        ensures
            n == self.selects().len(),
    {
        self.selects.len()
    }

    fn find_alias(&self, id: PathId) -> (r: Option<&String>)
        ensures
            match r {
                Some(a) => alias_of(self.join_aliases(), id) == Some(a@),
                None => alias_of(self.join_aliases(), id) is None,
            },
    {
        self.join_aliases.get(&id.0)
    }

    /// Add the origin model to the context, returning the path it is recorded under.
    ///
    /// Inside a scope opened with [`QueryContext::set_base_path`] the base path is returned instead.
    pub fn add_origin_path(&mut self, model_id: PathId, table: &'static str) -> (r: PathId)
        ensures
            old(self).base_path() matches Some(base) ==> r == base && *final(self) == *old(self),
            old(self).base_path() is None ==> {
                &&& r == model_id
                &&& final(self).join_aliases() == if alias_of(old(self).join_aliases(), model_id) is Some {
                    old(self).join_aliases()
                } else {
                    old(self).join_aliases().insert(model_id.0, table@)
                }
            },
            alias_of(final(self).join_aliases(), r) is Some || old(self).base_path() is Some,
            final(self).conditions() == old(self).conditions(),
            final(self).values() == old(self).values(),
            final(self).selects() == old(self).selects(),
            final(self).joins() == old(self).joins(),
            final(self).order_bys() == old(self).order_bys(),
            final(self).base_path() == old(self).base_path(),
    {
        if let Some(base_path) = self.base_path {
            base_path
        } else {
            if self.find_alias(model_id).is_none() {
                let ghost before = self.join_aliases();
                self.join_aliases.insert(model_id.0, String::from_str(table));
                assert(self.join_aliases() =~= before.insert(model_id.0, table@));
            }
            model_id
        }
    }

    /// Add a relation path to the context, returning `path_id`, the id it is recorded under.
    ///
    /// The path steps from its parent path `parent_id` (already added) through the
    /// foreign key `parent_column` to `child_column` of `child_table`.
    /// A path added before is left as it is; a new one gets the next alias,
    /// a join of `child_table` and the join's condition `child_column = parent_column`.
    pub fn add_relation_path(
        &mut self,
        path_id: PathId,
        parent_id: PathId,
        child_table: &'static str,
        child_column: &'static str,
        parent_column: &'static str,
    ) -> (r: PathId)
        requires
            alias_of(old(self).join_aliases(), path_id) is None ==> az_valid(
                old(self).join_aliases().len(),
            ),
        ensures
            r == path_id,
            alias_of(old(self).join_aliases(), path_id) is Some ==> *final(self) == *old(self),
            alias_of(old(self).join_aliases(), path_id) is None ==> {
                &&& final(self).join_aliases() == old(self).join_aliases().insert(
                    path_id.0,
                    az_alias(old(self).join_aliases().len()),
                )
                &&& final(self).joins() == old(self).joins().push(
                    (Join {
                        table_name: child_table,
                        join_alias: path_id,
                        join_condition: old(self).conditions().len() as usize,
                    }),
                )
                &&& final(self).conditions() == old(self).conditions() + seq![
                    FlatCondition::BinaryCondition(BinaryOperator::Equals),
                    FlatCondition::Column(path_id, child_column),
                    FlatCondition::Column(parent_id, parent_column),
                ]
            },
            alias_of(final(self).join_aliases(), path_id) is Some,
            final(self).values() == old(self).values(),
            final(self).selects() == old(self).selects(),
            final(self).order_bys() == old(self).order_bys(),
            final(self).base_path() == old(self).base_path(),
    {
        if self.find_alias(path_id).is_none() {
            let ghost before = self.join_aliases();
            assert(self.join_aliases@.dom() =~= before.dom());
            let alias = number_as_az(self.join_aliases.len());
            self.join_aliases.insert(path_id.0, alias);
            assert(self.join_aliases() =~= before.insert(path_id.0, az_alias(before.len())));
            self.joins.push(
                Join {
                    table_name: child_table,
                    join_alias: path_id,
                    join_condition: self.conditions.len(),
                },
            );
            let ghost conds = self.conditions@;
            self.conditions.push(FlatCondition::BinaryCondition(BinaryOperator::Equals));
            self.conditions.push(FlatCondition::Column(path_id, child_column));
            self.conditions.push(FlatCondition::Column(parent_id, parent_column));
            assert(self.conditions@ =~= conds + seq![
                FlatCondition::BinaryCondition(BinaryOperator::Equals),
                FlatCondition::Column(path_id, child_column),
                FlatCondition::Column(parent_id, parent_column),
            ]);
        }
        path_id
    }
}

/// The columns of `selects`, in order, if they can stand in an INSERT's RETURNING clause:
/// no joins, at least one select, no aggregation, and all from the same table.
pub open spec fn returning_of(joins: Seq<Join>, selects: Seq<Select>) -> Option<Seq<&'static str>> {
    if joins.len() != 0 || selects.len() == 0 {
        None
    } else if exists|i: int|
        0 <= i < selects.len() && (#[trigger] selects[i].aggregation is Some || selects[i].table_name
            != selects[0].table_name) {
        None
    } else {
        Some(selects.map_values(|s: Select| s.column_name))
    }
}

impl QueryContext {
    /// Add a column to select, returning its index and alias.
    ///
    /// `path` is the path (already added to the context) whose table holds the column.
    pub fn select_field(&mut self, path: PathId, column_name: &'static str) -> (r: (usize, String))
        requires
            az_valid(old(self).selects().len()),
        ensures
            r.0 == old(self).selects().len(),
            r.1@ == az_alias(old(self).selects().len()),
            final(self).selects() == old(self).selects().push(
                Select { table_name: path, column_name, select_alias: r.1, aggregation: None },
            ),
            final(self).conditions() == old(self).conditions(),
            final(self).values() == old(self).values(),
            final(self).joins() == old(self).joins(),
            final(self).order_bys() == old(self).order_bys(),
            final(self).join_aliases() == old(self).join_aliases(),
            final(self).base_path() == old(self).base_path(),
    {
        let alias = number_as_az(self.selects.len());
        self.selects.push(
            Select {
                table_name: path,
                column_name,
                select_alias: alias.clone(),
                aggregation: None,
            },
        );
        (self.selects.len() - 1, alias)
    }

    /// Add a column to aggregate, returning its index and alias.
    ///
    /// `path` is the path (already added to the context) whose table holds the column.
    pub fn select_aggregation(
        &mut self,
        path: PathId,
        column_name: &'static str,
        aggregation: SelectAggregator,
    ) -> (r: (usize, String))
        requires
            az_valid(old(self).selects().len()),
        ensures
            r.0 == old(self).selects().len(),
            r.1@ == az_alias(old(self).selects().len()),
            final(self).selects() == old(self).selects().push(
                Select {
                    table_name: path,
                    column_name,
                    select_alias: r.1,
                    aggregation: Some(aggregation),
                },
            ),
            final(self).conditions() == old(self).conditions(),
            final(self).values() == old(self).values(),
            final(self).joins() == old(self).joins(),
            final(self).order_bys() == old(self).order_bys(),
            final(self).join_aliases() == old(self).join_aliases(),
            final(self).base_path() == old(self).base_path(),
    {
        let alias = number_as_az(self.selects.len());
        self.selects.push(
            Select {
                table_name: path,
                column_name,
                select_alias: alias.clone(),
                aggregation: Some(aggregation),
            },
        );
        (self.selects.len() - 1, alias)
    }

    /// Add a column to order by.
    ///
    /// `path` is the path (already added to the context) whose table holds the column.
    pub fn order_by_field(&mut self, path: PathId, column_name: &'static str, ordering: SortOrder)
        ensures
            final(self).order_bys() == old(self).order_bys().push(
                OrderBy { column_name, table_name: path, ordering },
            ),
            final(self).conditions() == old(self).conditions(),
            final(self).values() == old(self).values(),
            final(self).joins() == old(self).joins(),
            final(self).selects() == old(self).selects(),
            final(self).join_aliases() == old(self).join_aliases(),
            final(self).base_path() == old(self).base_path(),
    {
        self.order_bys.push(OrderBy { column_name, table_name: path, ordering });
    }

    /// The selected columns' names, to be used in `INSERT RETURNING`.
    ///
    /// Returns `None` if the context could not be used there:
    /// if it has joins, selects nothing, aggregates or selects from several tables.
    pub fn get_returning(&self) -> (r: Option<Vec<&'static str>>)
        ensures
            match r {
                Some(v) => returning_of(self.joins(), self.selects()) == Some(v@),
                None => returning_of(self.joins(), self.selects()) is None,
            },
    {
        if self.joins.len() != 0 {
            return None;
        }
        if self.selects.len() == 0 {
            return None;
        }
        let table_name = self.selects[0].table_name;
        let mut returning: Vec<&'static str> = Vec::new();
        let mut i: usize = 0;
        while i < self.selects.len()
            invariant
                0 <= i <= self.selects@.len(),
                self.selects@.len() > 0,
                table_name == self.selects@[0].table_name,
                returning@ == self.selects@.take(i as int).map_values(|s: Select| s.column_name),
                forall|j: int|
                    0 <= j < i ==> (#[trigger] self.selects@[j]).aggregation is None
                        && self.selects@[j].table_name == table_name,
            decreases self.selects@.len() - i,
        {
            let select = &self.selects[i];
            if select.aggregation.is_some() {
                assert(self.selects()[i as int].aggregation is Some);
                return None;
            }
            if select.table_name != table_name {
                assert(self.selects()[i as int].table_name != self.selects()[0].table_name);
                return None;
            }
            returning.push(select.column_name);
            i += 1;
            assert(returning@ =~= self.selects@.take(i as int).map_values(|s: Select| s.column_name));
        }
        assert(self.selects@.take(i as int) =~= self.selects@);
        Some(returning)
    }

    /// Every path is appended to `path` until [`QueryContext::restore_base_path`] is called;
    /// returns the previous base path, which is to be restored then.
    ///
    /// The caller is responsible for ensuring those joins to be valid.
    pub fn set_base_path(&mut self, path: PathId) -> (prev: Option<PathId>)
        ensures
            prev == old(self).base_path(),
            final(self).base_path() == Some(path),
            final(self).conditions() == old(self).conditions(),
            final(self).values() == old(self).values(),
            final(self).joins() == old(self).joins(),
            final(self).selects() == old(self).selects(),
            final(self).order_bys() == old(self).order_bys(),
            final(self).join_aliases() == old(self).join_aliases(),
    {
        let prev = self.base_path;
        self.base_path = Some(path);
        prev
    }

    /// Ends a scope opened by [`QueryContext::set_base_path`].
    pub fn restore_base_path(&mut self, prev: Option<PathId>)
        ensures
            final(self).base_path() == prev,
            final(self).conditions() == old(self).conditions(),
            final(self).values() == old(self).values(),
            final(self).joins() == old(self).joins(),
            final(self).selects() == old(self).selects(),
            final(self).order_bys() == old(self).order_bys(),
            final(self).join_aliases() == old(self).join_aliases(),
    {
        self.base_path = prev;
    }

    /// The selects in the form handed to the SQL layer, borrowing from the context.
    pub fn get_selects(&self) -> (r: Vec<ColumnSelector<'_>>)
        requires
            forall|i: int|
                0 <= i < self.selects().len() ==> alias_of(
                    self.join_aliases(),
                    #[trigger] self.selects()[i].table_name,
                ) is Some,
        ensures
            r@.len() == self.selects().len(),
            forall|i: int|
                #![trigger r@[i]]
                0 <= i < r@.len() ==> {
                    let s = self.selects()[i];
                    &&& r@[i].table_name matches Some(t) && Some(t@) == alias_of(
                        self.join_aliases(),
                        s.table_name,
                    )
                    &&& r@[i].column_name == s.column_name
                    &&& r@[i].select_alias matches Some(a) && a@ == s.select_alias@
                    &&& r@[i].aggregation == s.aggregation
                },
    {
        let mut out: Vec<ColumnSelector> = Vec::new();
        let mut i: usize = 0;
        while i < self.selects.len()
            invariant
                0 <= i <= self.selects@.len(),
                out@.len() == i,
                forall|i: int|
                    0 <= i < self.selects().len() ==> alias_of(
                        self.join_aliases(),
                        #[trigger] self.selects()[i].table_name,
                    ) is Some,
                forall|k: int|
                    #![trigger out@[k]]
                    0 <= k < i ==> {
                        let s = self.selects()[k];
                        &&& out@[k].table_name matches Some(t) && Some(t@) == alias_of(
                            self.join_aliases(),
                            s.table_name,
                        )
                        &&& out@[k].column_name == s.column_name
                        &&& out@[k].select_alias matches Some(a) && a@ == s.select_alias@
                        &&& out@[k].aggregation == s.aggregation
                    },
            decreases self.selects@.len() - i,
        {
            let select = &self.selects[i];
            assert(alias_of(self.join_aliases(), self.selects()[i as int].table_name) is Some);
            let table = match self.find_alias(select.table_name) {
                Some(t) => t,
                None => {
                    proof {
                        assert(false);
                    }
                    return out;
                },
            };
            out.push(
                ColumnSelector {
                    table_name: Some(table.as_str()),
                    column_name: select.column_name,
                    select_alias: Some(select.select_alias.as_str()),
                    aggregation: select.aggregation,
                },
            );
            i += 1;
        }
        out
    }

    /// The order bys in the form handed to the SQL layer, borrowing from the context.
    pub fn get_order_bys(&self) -> (r: Vec<OrderByEntry<'_>>)
        requires
            forall|i: int|
                0 <= i < self.order_bys().len() ==> alias_of(
                    self.join_aliases(),
                    #[trigger] self.order_bys()[i].table_name,
                ) is Some,
        ensures
            r@.len() == self.order_bys().len(),
            forall|i: int|
                #![trigger r@[i]]
                0 <= i < r@.len() ==> {
                    let o = self.order_bys()[i];
                    &&& r@[i].table_name matches Some(t) && Some(t@) == alias_of(
                        self.join_aliases(),
                        o.table_name,
                    )
                    &&& r@[i].column_name == o.column_name
                    &&& r@[i].ordering == o.ordering
                },
    {
        let mut out: Vec<OrderByEntry> = Vec::new();
        let mut i: usize = 0;
        while i < self.order_bys.len()
            invariant
                0 <= i <= self.order_bys@.len(),
                out@.len() == i,
                forall|i: int|
                    0 <= i < self.order_bys().len() ==> alias_of(
                        self.join_aliases(),
                        #[trigger] self.order_bys()[i].table_name,
                    ) is Some,
                forall|k: int|
                    #![trigger out@[k]]
                    0 <= k < i ==> {
                        let o = self.order_bys()[k];
                        &&& out@[k].table_name matches Some(t) && Some(t@) == alias_of(
                            self.join_aliases(),
                            o.table_name,
                        )
                        &&& out@[k].column_name == o.column_name
                        &&& out@[k].ordering == o.ordering
                    },
            decreases self.order_bys@.len() - i,
        {
            let order_by = &self.order_bys[i];
            assert(alias_of(self.join_aliases(), self.order_bys()[i as int].table_name) is Some);
            let table = match self.find_alias(order_by.table_name) {
                Some(t) => t,
                None => {
                    proof {
                        assert(false);
                    }
                    return out;
                },
            };
            out.push(
                OrderByEntry {
                    ordering: order_by.ordering,
                    table_name: Some(table.as_str()),
                    column_name: order_by.column_name,
                },
            );
            i += 1;
        }
        out
    }
}

/// Two selects added to a context are given different aliases.
pub proof fn lemma_select_aliases_distinct(i: nat, j: nat)
    requires
        az_valid(i),
        az_valid(j),
        i != j,
    ensures
        az_alias(i) != az_alias(j),
{
    if az_alias(i) == az_alias(j) {
        crate::alias::lemma_az_alias_injective(i, j);
    }
}

} // verus!
