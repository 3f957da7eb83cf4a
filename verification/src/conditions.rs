//! A generic condition tree, flattened into a [`QueryContext`] when a query is built.
use vstd::prelude::*;

use crate::query_context::{FlatCondition, QueryContext};

verus! {

/// The database type of a `NULL` value.
#[derive(Copy, Clone, Debug, PartialEq, Eq, Structural)]
pub enum NullType {
    /// String
    String,
    /// Choice of a fixed set of strings
    Choice,
    /// i64
    I64,
    /// i32
    I32,
    /// i16
    I16,
    /// bool
    Bool,
    /// f64
    F64,
    /// f32
    F32,
    /// Binary data
    Binary,
    /// Time without a date or time zone
    ChronoNaiveTime,
    /// Date without a time zone
    ChronoNaiveDate,
    /// Date and time without a time zone
    ChronoNaiveDateTime,
    /// Date and time in UTC
    ChronoDateTime,
    /// Date
    TimeDate,
    /// Time
    TimeTime,
    /// Date and time with an offset
    TimeOffsetDateTime,
    /// Date and time without an offset
    TimePrimitiveDateTime,
    /// Uuid
    Uuid,
    /// Uuid stored hyphenated
    UuidHyphenated,
    /// Uuid stored without hyphens
    UuidSimple,
    /// Json value
    JsonValue,
}

/// A value used in a condition or stored in a column.
#[derive(Clone, Debug)]
pub enum Value {
    /// null representation
    Null(NullType),
    /// String representation
    String(String),
    /// Representation of choices
    Choice(String),
    /// i64 representation
    I64(i64),
    /// i32 representation
    I32(i32),
    /// i16 representation
    I16(i16),
    /// Bool representation
    Bool(bool),
    /// binary representation
    Binary(Vec<u8>),
}

/// The abstract content of a [`Value`].
pub ghost enum ValueView {
    /// null of a type
    Null(NullType),
    /// a string's characters
    String(Seq<char>),
    /// a choice's characters
    Choice(Seq<char>),
    /// i64
    I64(i64),
    /// i32
    I32(i32),
    /// i16
    I16(i16),
    /// bool
    Bool(bool),
    /// bytes
    Binary(Seq<u8>),
}

impl View for Value {
    type V = ValueView;

    open spec fn view(&self) -> ValueView {
        match self {
            Value::Null(t) => ValueView::Null(*t),
            Value::String(s) => ValueView::String(s@),
            Value::Choice(s) => ValueView::Choice(s@),
            Value::I64(v) => ValueView::I64(*v),
            Value::I32(v) => ValueView::I32(*v),
            Value::I16(v) => ValueView::I16(*v),
            Value::Bool(v) => ValueView::Bool(*v),
            Value::Binary(b) => ValueView::Binary(b@),
        }
    }
}

/// A value borrowed in the form handed to the SQL layer.
#[derive(Copy, Clone, Debug)]
pub enum SqlValue<'a> {
    /// null representation
    Null(NullType),
    /// String representation
    String(&'a str),
    /// Representation of choices
    Choice(&'a str),
    /// i64 representation
    I64(i64),
    /// i32 representation
    I32(i32),
    /// i16 representation
    I16(i16),
    /// Bool representation
    Bool(bool),
    /// binary representation
    Binary(&'a [u8]),
}

/// Does `sql` carry the same data as `value`?
pub open spec fn sql_matches(value: ValueView, sql: SqlValue) -> bool {
    match value {
        ValueView::Null(t) => sql == SqlValue::Null(t),
        ValueView::String(s) => sql matches SqlValue::String(r) && r@ == s,
        ValueView::Choice(s) => sql matches SqlValue::Choice(r) && r@ == s,
        ValueView::I64(v) => sql == SqlValue::I64(v),
        ValueView::I32(v) => sql == SqlValue::I32(v),
        ValueView::I16(v) => sql == SqlValue::I16(v),
        ValueView::Bool(v) => sql == SqlValue::Bool(v),
        ValueView::Binary(b) => sql matches SqlValue::Binary(r) && r@ == b,
    }
}

impl Value {
    /// Borrow this value in the form handed to the SQL layer.
    pub fn as_sql(&self) -> (r: SqlValue<'_>)
        ensures
            sql_matches(self@, r),
    {
        match self {
            Value::Null(null_type) => SqlValue::Null(*null_type),
            Value::String(v) => SqlValue::String(v.as_str()),
            Value::Choice(v) => SqlValue::Choice(v.as_str()),
            Value::I64(v) => SqlValue::I64(*v),
            Value::I32(v) => SqlValue::I32(*v),
            Value::I16(v) => SqlValue::I16(*v),
            Value::Bool(v) => SqlValue::Bool(*v),
            Value::Binary(v) => SqlValue::Binary(v.as_slice()),
        }
    }
}

/// A binary operator
#[derive(Copy, Clone, Debug, PartialEq, Eq, Structural)]
pub enum BinaryOperator {
    /// Representation of "{} = {}" in SQL
    Equals,
    /// Representation of "{} <> {}" in SQL
    NotEquals,
    /// Representation of "{} > {}" in SQL
    Greater,
    /// Representation of "{} >= {}" in SQL
    GreaterOrEquals,
    /// Representation of "{} < {}" in SQL
    Less,
    /// Representation of "{} <= {}" in SQL
    LessOrEquals,
    /// Representation of "{} LIKE {}" in SQL
    Like,
    /// Representation of "{} NOT LIKE {}" in SQL
    NotLike,
    /// Representation of "{} REGEXP {}" in SQL
    Regexp,
    /// Representation of "{} NOT REGEXP {}" in SQL
    NotRegexp,
}

/// A ternary operator
#[derive(Copy, Clone, Debug, PartialEq, Eq, Structural)]
pub enum TernaryOperator {
    /// Between represents "{} BETWEEN {} AND {}" from SQL
    Between,
    /// NotBetween represents "{} NOT BETWEEN {} AND {}" from SQL
    NotBetween,
}

/// A unary operator
#[derive(Copy, Clone, Debug, PartialEq, Eq, Structural)]
pub enum UnaryOperator {
    /// Representation of SQL's "{} IS NULL"
    IsNull,
    /// Representation of SQL's "{} IS NOT NULL"
    IsNotNull,
    /// Representation of SQL's "EXISTS {}"
    Exists,
    /// Representation of SQL's "NOT EXISTS {}"
    NotExists,
    /// Representation of SQL's "NOT {}"
    Not,
}

/// The operator joining the members of a collection of conditions
#[derive(Copy, Clone, Debug, PartialEq, Eq, Structural)]
pub enum CollectionOperator {
    /// All members have to hold
    And,
    /// At least one member has to hold
    Or,
}

/// The operator of an "IN" expression
#[derive(Copy, Clone, Debug, PartialEq, Eq, Structural)]
pub enum InOperator {
    /// Representation of "{} IN ({}, ...)" in SQL
    In,
    /// Representation of "{} NOT IN ({}, ...)" in SQL
    NotIn,
}

/// Node in a condition tree
///
/// Building a condition appends its nodes, in prefix order, to the context's list of
/// condition nodes, and its values to the context's list of values.
pub trait Condition {
    /// The nodes this condition appends, when the context already holds `first_value` values.
    spec fn nodes(&self, first_value: nat) -> Seq<FlatCondition>;

    /// The values this condition appends.
    spec fn values(&self) -> Seq<ValueView>;

    /// Adds this condition to a query context's internal representation
    ///
    /// If you're not implementing `Condition`, you'll probably want [`QueryContext::add_condition`].
    fn build(&self, context: &mut QueryContext)
        ensures
            final(context).conditions() == old(context).conditions() + self.nodes(
                old(context).values().len(),
            ),
            final(context).values() == old(context).values() + self.values(),
            final(context).same_except_conditions(*old(context)),
    ;
}

impl Condition for Value {
    open spec fn nodes(&self, first_value: nat) -> Seq<FlatCondition> {
        seq![FlatCondition::Value(first_value as usize)]
    }

    open spec fn values(&self) -> Seq<ValueView> {
        seq![self@]
    }

    fn build(&self, context: &mut QueryContext) {
        let index = context.values_len();
        context.push_value(self.clone_value());
        context.push_node(FlatCondition::Value(index));
    }
}

impl Value {
    /// A copy of this value.
    pub fn clone_value(&self) -> (r: Value)
        ensures
            r@ == self@,
    {
        match self {
            Value::Null(t) => Value::Null(*t),
            Value::String(s) => Value::String(s.clone()),
            Value::Choice(s) => Value::Choice(s.clone()),
            Value::I64(v) => Value::I64(*v),
            Value::I32(v) => Value::I32(*v),
            Value::I16(v) => Value::I16(*v),
            Value::Bool(v) => Value::Bool(*v),
            Value::Binary(b) => Value::Binary(b.clone()),
        }
    }
}

impl<'r, C: Condition> Condition for &'r C {
    open spec fn nodes(&self, first_value: nat) -> Seq<FlatCondition> {
        (**self).nodes(first_value)
    }

    open spec fn values(&self) -> Seq<ValueView> {
        (**self).values()
    }

    fn build(&self, context: &mut QueryContext) {
        (**self).build(context)
    }
}

/// A binary expression
#[derive(Copy, Clone, Debug)]
pub struct Binary<A, B> {
    /// SQL operator to use
    pub operator: BinaryOperator,
    /// The expression's first argument
    pub fst_arg: A,
    /// The expression's second argument
    pub snd_arg: B,
}

impl<A: Condition, B: Condition> Condition for Binary<A, B> {
    open spec fn nodes(&self, first_value: nat) -> Seq<FlatCondition> {
        seq![FlatCondition::BinaryCondition(self.operator)] + self.fst_arg.nodes(first_value)
            + self.snd_arg.nodes(first_value + self.fst_arg.values().len())
    }

    open spec fn values(&self) -> Seq<ValueView> {
        self.fst_arg.values() + self.snd_arg.values()
    }

    fn build(&self, context: &mut QueryContext) {
        let ghost start = *context;
        context.push_node(FlatCondition::BinaryCondition(self.operator));
        self.fst_arg.build(context);
        self.snd_arg.build(context);
        assert(context.conditions() =~= start.conditions() + self.nodes(start.values().len()));
        assert(context.values() =~= start.values() + self.values());
    }
}

/// A ternary expression
#[derive(Copy, Clone, Debug)]
pub struct Ternary<A, B, C> {
    /// SQL operator to use
    pub operator: TernaryOperator,
    /// The expression's first argument
    pub fst_arg: A,
    /// The expression's second argument
    pub snd_arg: B,
    /// The expression's third argument
    pub trd_arg: C,
}

impl<A: Condition, B: Condition, C: Condition> Condition for Ternary<A, B, C> {
    open spec fn nodes(&self, first_value: nat) -> Seq<FlatCondition> {
        seq![FlatCondition::TernaryCondition(self.operator)] + self.fst_arg.nodes(first_value)
            + self.snd_arg.nodes(first_value + self.fst_arg.values().len()) + self.trd_arg.nodes(
            first_value + self.fst_arg.values().len() + self.snd_arg.values().len(),
        )
    }

    open spec fn values(&self) -> Seq<ValueView> {
        self.fst_arg.values() + self.snd_arg.values() + self.trd_arg.values()
    }

    fn build(&self, context: &mut QueryContext) {
        let ghost start = *context;
        context.push_node(FlatCondition::TernaryCondition(self.operator));
        self.fst_arg.build(context);
        self.snd_arg.build(context);
        self.trd_arg.build(context);
        assert(context.conditions() =~= start.conditions() + self.nodes(start.values().len()));
        assert(context.values() =~= start.values() + self.values());
    }
}

/// A unary expression
#[derive(Copy, Clone, Debug)]
pub struct Unary<A> {
    /// SQL operator to use
    pub operator: UnaryOperator,
    /// The expression's first argument
    pub fst_arg: A,
}

impl<A: Condition> Condition for Unary<A> {
    open spec fn nodes(&self, first_value: nat) -> Seq<FlatCondition> {
        seq![FlatCondition::UnaryCondition(self.operator)] + self.fst_arg.nodes(first_value)
    }

    open spec fn values(&self) -> Seq<ValueView> {
        self.fst_arg.values()
    }

    fn build(&self, context: &mut QueryContext) {
        let ghost start = *context;
        context.push_node(FlatCondition::UnaryCondition(self.operator));
        self.fst_arg.build(context);
        assert(context.conditions() =~= start.conditions() + self.nodes(start.values().len()));
    }
}

} // verus!

verus! {

/// An "IN" expression
///
/// The implementation will definitely change,
/// but it's better to have some form of "IN" than none.
#[derive(Clone, Debug)]
pub struct In<A, B> {
    /// SQL operator to use
    pub operator: InOperator,
    /// The left side of the operator
    pub fst_arg: A,
    /// The multiple values on the operator's right side
    pub snd_arg: Vec<B>,
}

/// The nodes of the comparisons of `fst` with each of `members`.
pub open spec fn in_members_nodes<A: Condition, B: Condition>(
    fst: A,
    members: Seq<B>,
    first_value: nat,
) -> Seq<FlatCondition>
    decreases members.len(),
{
    if members.len() == 0 {
        Seq::empty()
    } else {
        let base = first_value + in_members_values(fst, members.drop_last()).len();
        in_members_nodes(fst, members.drop_last(), first_value) + seq![
            FlatCondition::BinaryCondition(BinaryOperator::Equals),
        ] + fst.nodes(base) + members.last().nodes(base + fst.values().len())
    }
}

/// The node negating an `IN`: `NOT` for `NOT IN`, nothing for `IN`.
pub open spec fn in_negation(operator: InOperator) -> Seq<FlatCondition> {
    match operator {
        InOperator::In => seq![],
        InOperator::NotIn => seq![FlatCondition::UnaryCondition(UnaryOperator::Not)],
    }
}

/// The values of the comparisons of `fst` with each of `members`.
pub open spec fn in_members_values<A: Condition, B: Condition>(fst: A, members: Seq<B>) -> Seq<
    ValueView,
>
    decreases members.len(),
{
    if members.len() == 0 {
        Seq::empty()
    } else {
        in_members_values(fst, members.drop_last()) + fst.values() + members.last().values()
    }
}

impl<A: Condition, B: Condition> Condition for In<A, B> {
    /// `IN` is the disjunction of `fst_arg = member` over the members (false for none);
    /// `NOT IN` is its negation (true for none).
    open spec fn nodes(&self, first_value: nat) -> Seq<FlatCondition> {
        if self.snd_arg@.len() == 0 {
            seq![FlatCondition::Value(first_value as usize)]
        } else {
            in_negation(self.operator) + seq![
                FlatCondition::StartCollection(CollectionOperator::Or),
            ] + in_members_nodes(self.fst_arg, self.snd_arg@, first_value) + seq![
                FlatCondition::EndCollection,
            ]
        }
    }

    open spec fn values(&self) -> Seq<ValueView> {
        if self.snd_arg@.len() == 0 {
            seq![ValueView::Bool(self.operator == InOperator::NotIn)]
        } else {
            in_members_values(self.fst_arg, self.snd_arg@)
        }
    }

    fn build(&self, context: &mut QueryContext) {
        if self.snd_arg.len() == 0 {
            match self.operator {
                InOperator::In => Value::Bool(false).build(context),
                InOperator::NotIn => Value::Bool(true).build(context),
            }
        } else {
            let ghost origin = *context;
            match self.operator {
                InOperator::In => {},
                InOperator::NotIn => {
                    context.push_node(FlatCondition::UnaryCondition(UnaryOperator::Not));
                },
            }
            assert(context.conditions() =~= origin.conditions() + in_negation(self.operator));
            let ghost start = *context;
            let ghost first_value = start.values().len();
            context.push_node(FlatCondition::StartCollection(CollectionOperator::Or));
            let mut i: usize = 0;
            while i < self.snd_arg.len()
                invariant
                    0 <= i <= self.snd_arg@.len(),
                    context.conditions() == start.conditions() + seq![
                        FlatCondition::StartCollection(CollectionOperator::Or),
                    ] + in_members_nodes(self.fst_arg, self.snd_arg@.take(i as int), first_value),
                    context.values() == start.values() + in_members_values(
                        self.fst_arg,
                        self.snd_arg@.take(i as int),
                    ),
                    context.same_except_conditions(start),
                    first_value == start.values().len(),
                decreases self.snd_arg@.len() - i,
            {
                let ghost before = *context;
                let ghost prefix = self.snd_arg@.take(i as int);
                let ghost next = self.snd_arg@.take(i + 1);
                assert(next.drop_last() =~= prefix);
                assert(next.last() == self.snd_arg@[i as int]);
                context.push_node(FlatCondition::BinaryCondition(BinaryOperator::Equals));
                self.fst_arg.build(context);
                self.snd_arg[i].build(context);
                assert(context.conditions() =~= start.conditions() + seq![
                    FlatCondition::StartCollection(CollectionOperator::Or),
                ] + in_members_nodes(self.fst_arg, next, first_value));
                assert(context.values() =~= start.values() + in_members_values(self.fst_arg, next));
                i += 1;
            }
            assert(self.snd_arg@.take(i as int) =~= self.snd_arg@);
            context.push_node(FlatCondition::EndCollection);
            assert(context.conditions() =~= origin.conditions() + self.nodes(first_value));
        }
    }
}

} // verus!

verus! {

/// A comparison of two values puts its operator first, then the first argument's value,
/// then the second's: the first argument is the left side.
pub proof fn lemma_binary_left_side_first(operator: BinaryOperator, fst: Value, snd: Value, v: nat)
    ensures
        (Binary { operator, fst_arg: fst, snd_arg: snd }).nodes(v) == seq![
            FlatCondition::BinaryCondition(operator),
            FlatCondition::Value(v as usize),
            FlatCondition::Value((v + 1) as usize),
        ],
        (Binary { operator, fst_arg: fst, snd_arg: snd }).values() == seq![fst@, snd@],
{
    let b = Binary { operator, fst_arg: fst, snd_arg: snd };
    assert(b.nodes(v) =~= seq![
        FlatCondition::BinaryCondition(operator),
        FlatCondition::Value(v as usize),
        FlatCondition::Value((v + 1) as usize),
    ]);
    assert(b.values() =~= seq![fst@, snd@]);
}

/// A ternary expression of three values lists them in argument order.
pub proof fn lemma_ternary_argument_order(
    operator: TernaryOperator,
    fst: Value,
    snd: Value,
    trd: Value,
    v: nat,
)
    ensures
        (Ternary { operator, fst_arg: fst, snd_arg: snd, trd_arg: trd }).nodes(v) == seq![
            FlatCondition::TernaryCondition(operator),
            FlatCondition::Value(v as usize),
            FlatCondition::Value((v + 1) as usize),
            FlatCondition::Value((v + 2) as usize),
        ],
        (Ternary { operator, fst_arg: fst, snd_arg: snd, trd_arg: trd }).values() == seq![
            fst@,
            snd@,
            trd@,
        ],
{
    let t = Ternary { operator, fst_arg: fst, snd_arg: snd, trd_arg: trd };
    assert(t.nodes(v) =~= seq![
        FlatCondition::TernaryCondition(operator),
        FlatCondition::Value(v as usize),
        FlatCondition::Value((v + 1) as usize),
        FlatCondition::Value((v + 2) as usize),
    ]);
    assert(t.values() =~= seq![fst@, snd@, trd@]);
}

/// The comparisons of the value `fst` with the values `members`: one equality per
/// member, in order, each comparing `fst` (left) with that member (right).
proof fn lemma_in_members_of_values(fst: Value, members: Seq<Value>, v: nat)
    ensures
        in_members_nodes(fst, members, v).len() == 3 * members.len(),
        in_members_values(fst, members).len() == 2 * members.len(),
        forall|j: int|
            0 <= j < members.len() ==> {
                &&& #[trigger] in_members_nodes(fst, members, v)[3 * j]
                    == FlatCondition::BinaryCondition(BinaryOperator::Equals)
                &&& in_members_nodes(fst, members, v)[3 * j + 1] == FlatCondition::Value(
                    (v + 2 * j) as usize,
                )
                &&& in_members_nodes(fst, members, v)[3 * j + 2] == FlatCondition::Value(
                    (v + 2 * j + 1) as usize,
                )
                &&& in_members_values(fst, members)[2 * j] == fst@
                &&& in_members_values(fst, members)[2 * j + 1] == members[j]@
            },
    decreases members.len(),
{
    if members.len() > 0 {
        let init = members.drop_last();
        lemma_in_members_of_values(fst, init, v);
        let n = members.len() - 1;
        let base = v + in_members_values(fst, init).len();
        assert(base == v + 2 * n);
        let nodes = in_members_nodes(fst, members, v);
        let values = in_members_values(fst, members);
        assert(nodes =~= in_members_nodes(fst, init, v) + seq![
            FlatCondition::BinaryCondition(BinaryOperator::Equals),
            FlatCondition::Value(base as usize),
            FlatCondition::Value((base + 1) as usize),
        ]);
        assert(values =~= in_members_values(fst, init) + seq![fst@, members.last()@]);
        assert forall|j: int| 0 <= j < members.len() implies {
            &&& #[trigger] nodes[3 * j] == FlatCondition::BinaryCondition(BinaryOperator::Equals)
            &&& nodes[3 * j + 1] == FlatCondition::Value((v + 2 * j) as usize)
            &&& nodes[3 * j + 2] == FlatCondition::Value((v + 2 * j + 1) as usize)
            &&& values[2 * j] == fst@
            &&& values[2 * j + 1] == members[j]@
        } by {
            if j < n {
                assert(init[j] == members[j]);
                assert(in_members_nodes(fst, init, v)[3 * j] == FlatCondition::BinaryCondition(
                    BinaryOperator::Equals,
                ));
            }
        }
    }
}

/// `x IN (m1, ..., mk)` of values is a disjunction (`OR`) of one equality `x = mi` per
/// member, in order, with `x` on the left; `NOT IN` negates it. With no members `IN` is
/// the value false and `NOT IN` the value true.
pub proof fn lemma_in_is_disjunction_of_equalities(c: In<Value, Value>, v: nat)
    ensures
        ({
            let n = c.snd_arg@.len();
            let k: int = if c.operator == InOperator::NotIn { 1 } else { 0 };
            let nodes = c.nodes(v);
            let values = c.values();
            if n == 0 {
                &&& nodes == seq![FlatCondition::Value(v as usize)]
                &&& values == seq![ValueView::Bool(c.operator == InOperator::NotIn)]
            } else {
                &&& nodes.len() == k + 3 * n + 2
                &&& c.operator == InOperator::NotIn ==> nodes[0] == FlatCondition::UnaryCondition(
                    UnaryOperator::Not,
                )
                &&& nodes[k] == FlatCondition::StartCollection(CollectionOperator::Or)
                &&& nodes[k + 3 * n + 1] == FlatCondition::EndCollection
                &&& values.len() == 2 * n
                &&& forall|j: int|
                    0 <= j < n ==> {
                        &&& #[trigger] nodes[k + 1 + 3 * j] == FlatCondition::BinaryCondition(
                            BinaryOperator::Equals,
                        )
                        &&& nodes[k + 2 + 3 * j] == FlatCondition::Value((v + 2 * j) as usize)
                        &&& nodes[k + 3 + 3 * j] == FlatCondition::Value((v + 2 * j + 1) as usize)
                        &&& values[2 * j] == c.fst_arg@
                        &&& values[2 * j + 1] == c.snd_arg@[j]@
                    }
            }
        }),
{
    let n = c.snd_arg@.len();
    if n > 0 {
        lemma_in_members_of_values(c.fst_arg, c.snd_arg@, v);
        let k: int = if c.operator == InOperator::NotIn { 1 } else { 0 };
        let members = in_members_nodes(c.fst_arg, c.snd_arg@, v);
        let nodes = c.nodes(v);
        assert(in_negation(c.operator).len() == k);
        assert forall|j: int| 0 <= j < n implies {
            &&& #[trigger] nodes[k + 1 + 3 * j] == FlatCondition::BinaryCondition(
                BinaryOperator::Equals,
            )
            &&& nodes[k + 2 + 3 * j] == FlatCondition::Value((v + 2 * j) as usize)
            &&& nodes[k + 3 + 3 * j] == FlatCondition::Value((v + 2 * j + 1) as usize)
        } by {
            assert(nodes[k + 1 + 3 * j] == members[3 * j]);
            assert(nodes[k + 2 + 3 * j] == members[3 * j + 1]);
            assert(nodes[k + 3 + 3 * j] == members[3 * j + 2]);
        }
    }
}

} // verus!
