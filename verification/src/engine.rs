//! What statements mean.
//!
//! The statements of this library belong to a small part of SQL. Here that part stands
//! as trees: how a tree is written down, and what it does to tables and answers of them.
//! Laws elsewhere read the text of a statement as such a tree, and say what comes of it.

use crate::ids::ident;
use crate::sql::{StatementView, ValueView};
use crate::text::{decimal, join};
use vstd::prelude::*;

verus! {

// ---- Values ----------------------------------------------------------------

/// What is left open of an engine: the functions that it has, and how it compares
/// doubles. What is shown holds of every engine.
pub struct Engine {
    /// What a function gives for its arguments.
    pub call: spec_fn(Seq<char>, Seq<ValueView>) -> ValueView,
    /// Two numbers, one of them a double, are the same.
    pub double_same: spec_fn(ValueView, ValueView) -> bool,
    /// One number is less than another, one of them being a double.
    pub double_less: spec_fn(ValueView, ValueView) -> bool,
}

/// A row, by the names of its columns.
pub type Row = Map<Seq<char>, ValueView>;

/// A table, by the numbers of its rows.
pub type Table = Map<int, Row>;

/// The tables, by their names.
pub type Tables = Map<Seq<char>, Table>;

/// One text stands before another, character by character.
pub open spec fn precedes(a: Seq<char>, b: Seq<char>) -> bool
    decreases a.len(),
{
    if b.len() == 0 {
        false
    } else if a.len() == 0 {
        true
    } else if a[0] == b[0] {
        precedes(a.skip(1), b.skip(1))
    } else {
        a[0] < b[0]
    }
}

/// The two are the same value. Nothing is the same as null.
pub open spec fn same_value(e: Engine, a: ValueView, b: ValueView) -> bool {
    match (a, b) {
        (ValueView::Integer(x), ValueView::Integer(y)) => x == y,
        (ValueView::Text(x), ValueView::Text(y)) => x == y,
        (ValueView::Blob(x), ValueView::Blob(y)) => x == y,
        (ValueView::Real(_), ValueView::Real(_)) => (e.double_same)(a, b),
        (ValueView::Integer(_), ValueView::Real(_)) => (e.double_same)(a, b),
        (ValueView::Real(_), ValueView::Integer(_)) => (e.double_same)(a, b),
        _ => false,
    }
}

/// One value is less than another: numbers by size, texts by their characters, and
/// every number is less than every text. Null is neither less nor greater.
pub open spec fn less_value(e: Engine, a: ValueView, b: ValueView) -> bool {
    match (a, b) {
        (ValueView::Integer(x), ValueView::Integer(y)) => x < y,
        (ValueView::Text(x), ValueView::Text(y)) => precedes(x, y),
        (ValueView::Real(_), ValueView::Real(_)) => (e.double_less)(a, b),
        (ValueView::Integer(_), ValueView::Real(_)) => (e.double_less)(a, b),
        (ValueView::Real(_), ValueView::Integer(_)) => (e.double_less)(a, b),
        (ValueView::Integer(_), ValueView::Text(_)) => true,
        (ValueView::Real(_), ValueView::Text(_)) => true,
        _ => false,
    }
}

// ---- Expressions -----------------------------------------------------------

pub enum Expr {
    Column(Seq<char>),
    /// The parameter with this number.
    Param(nat),
    /// The next parameter, with the value that is bound to it.
    Bound(ValueView),
    Number(nat),
    Quoted(Seq<char>),
    Null,
    Call1(Seq<char>, Box<Expr>),
    Call2(Seq<char>, Box<Expr>, Box<Expr>),
}

pub open spec fn expr_text(x: Expr) -> Seq<char>
    decreases x,
{
    match x {
        Expr::Column(c) => c,
        Expr::Param(n) => "?"@ + decimal(n),
        Expr::Bound(_) => "?"@,
        Expr::Number(n) => decimal(n),
        Expr::Quoted(s) => "'"@ + s + "'"@,
        Expr::Null => "NULL"@,
        Expr::Call1(f, a) => f + "("@ + expr_text(*a) + ")"@,
        Expr::Call2(f, a, b) => f + "("@ + expr_text(*a) + ", "@ + expr_text(*b) + ")"@,
    }
}

/// A name of a column: a word, or two with a dot between them.
pub open spec fn column_name(c: Seq<char>) -> bool {
    ident(c) || exists|k: int|
        0 < k < c.len() - 1 && c[k] == '.' && ident(#[trigger] c.take(k)) && ident(c.skip(k + 1))
}

/// What is written stands for itself: names are names, and a quoted text ends where it
/// ends.
pub open spec fn expr_ok(x: Expr) -> bool
    decreases x,
{
    match x {
        Expr::Column(c) => column_name(c),
        Expr::Quoted(s) => crate::ids::quotable(s),
        Expr::Call1(f, a) => ident(f) && expr_ok(*a),
        Expr::Call2(f, a, b) => ident(f) && expr_ok(*a) && expr_ok(*b),
        _ => true,
    }
}

pub open spec fn expr_value(e: Engine, x: Expr, params: Seq<ValueView>, row: Row) -> ValueView
    decreases x,
{
    match x {
        Expr::Column(c) => row[c],
        Expr::Param(n) => params[n - 1],
        Expr::Bound(v) => v,
        Expr::Number(n) => ValueView::Integer(n as i64),
        Expr::Quoted(s) => ValueView::Text(s),
        Expr::Null => ValueView::Null,
        Expr::Call1(f, a) => (e.call)(f, seq![expr_value(e, *a, params, row)]),
        Expr::Call2(f, a, b) => (e.call)(
            f,
            seq![expr_value(e, *a, params, row), expr_value(e, *b, params, row)],
        ),
    }
}

/// The values that are bound in an expression, in the order of the text.
pub open spec fn expr_binds(x: Expr) -> Seq<ValueView>
    decreases x,
{
    match x {
        Expr::Bound(v) => seq![v],
        Expr::Call1(_, a) => expr_binds(*a),
        Expr::Call2(_, a, b) => expr_binds(*a) + expr_binds(*b),
        _ => Seq::empty(),
    }
}

// ---- Conditions ------------------------------------------------------------

pub enum Relation {
    Equal,
    Differs,
    Greater,
    AtLeast,
    Less,
    AtMost,
}

pub open spec fn relation_text(r: Relation) -> Seq<char> {
    match r {
        Relation::Equal => "="@,
        Relation::Differs => "IS NOT"@,
        Relation::Greater => ">"@,
        Relation::AtLeast => ">="@,
        Relation::Less => "<"@,
        Relation::AtMost => "<="@,
    }
}

/// The relation holds. All but the difference need two values that are not null.
pub open spec fn related(e: Engine, r: Relation, a: ValueView, b: ValueView) -> bool {
    match r {
        Relation::Equal => same_value(e, a, b),
        Relation::Differs => !(same_value(e, a, b) || (a is Null && b is Null)),
        Relation::Greater => less_value(e, b, a),
        Relation::AtLeast => less_value(e, b, a) || same_value(e, a, b),
        Relation::Less => less_value(e, a, b),
        Relation::AtMost => less_value(e, a, b) || same_value(e, a, b),
    }
}

pub enum Cond {
    /// It holds always, or never.
    Fixed(bool),
    Test(Expr, Relation, Expr),
    /// A test that is written without spaces.
    Tight(Expr, Relation, Expr),
    IsNull(Expr),
    NotNull(Expr),
    Among(Expr, Seq<Expr>),
    All(Seq<Cond>),
    Any(Seq<Cond>),
    Group(Box<Cond>),
}

pub open spec fn expr_texts(xs: Seq<Expr>) -> Seq<Seq<char>> {
    Seq::new(xs.len(), |i: int| expr_text(xs[i]))
}

pub open spec fn cond_text(c: Cond) -> Seq<char>
    decreases c,
{
    match c {
        Cond::Fixed(b) => if b {
            "1"@
        } else {
            "0"@
        },
        Cond::Test(a, r, b) => expr_text(a) + " "@ + relation_text(r) + " "@ + expr_text(b),
        Cond::Tight(a, r, b) => expr_text(a) + relation_text(r) + expr_text(b),
        Cond::IsNull(a) => expr_text(a) + " IS NULL"@,
        Cond::NotNull(a) => expr_text(a) + " IS NOT NULL"@,
        Cond::Among(a, xs) => expr_text(a) + " IN ("@ + join(expr_texts(xs), ", "@) + ")"@,
        Cond::All(cs) => join(cond_texts(cs), " AND "@),
        Cond::Any(cs) => join(cond_texts(cs), " OR "@),
        Cond::Group(c) => "("@ + cond_text(*c) + ")"@,
    }
}

/// The texts of several conditions.
pub open spec fn cond_texts(cs: Seq<Cond>) -> Seq<Seq<char>>
    decreases cs,
{
    if cs.len() == 0 {
        Seq::empty()
    } else {
        cond_texts(cs.drop_last()).push(cond_text(cs.last()))
    }
}

/// The condition reads as it is written: what binds less closely stands in brackets, and
/// there is something to join and to list.
pub open spec fn cond_ok(c: Cond) -> bool
    decreases c,
{
    match c {
        Cond::Fixed(_) => true,
        Cond::Test(a, _, b) => expr_ok(a) && expr_ok(b),
        Cond::Tight(a, r, b) => expr_ok(a) && expr_ok(b) && r != Relation::Differs,
        Cond::IsNull(a) => expr_ok(a),
        Cond::NotNull(a) => expr_ok(a),
        Cond::Among(a, xs) => expr_ok(a) && xs.len() > 0 && forall|i: int|
            0 <= i < xs.len() ==> expr_ok(#[trigger] xs[i]),
        Cond::All(cs) => cs.len() > 0 && forall|i: int|
            0 <= i < cs.len() ==> !(cs[i] is Any) && cond_ok(#[trigger] cs[i]),
        Cond::Any(cs) => cs.len() > 0 && forall|i: int|
            0 <= i < cs.len() ==> cond_ok(#[trigger] cs[i]),
        Cond::Group(c) => cond_ok(*c),
    }
}

/// The condition holds of a row.
pub open spec fn holds(e: Engine, c: Cond, params: Seq<ValueView>, row: Row) -> bool
    decreases c,
{
    match c {
        Cond::Fixed(b) => b,
        Cond::Test(a, r, b) => related(
            e,
            r,
            expr_value(e, a, params, row),
            expr_value(e, b, params, row),
        ),
        Cond::Tight(a, r, b) => related(
            e,
            r,
            expr_value(e, a, params, row),
            expr_value(e, b, params, row),
        ),
        Cond::IsNull(a) => expr_value(e, a, params, row) is Null,
        Cond::NotNull(a) => !(expr_value(e, a, params, row) is Null),
        Cond::Among(a, xs) => exists|i: int|
            0 <= i < xs.len() && same_value(
                e,
                expr_value(e, a, params, row),
                expr_value(e, #[trigger] xs[i], params, row),
            ),
        Cond::All(cs) => forall|i: int|
            0 <= i < cs.len() ==> holds(e, #[trigger] cs[i], params, row),
        Cond::Any(cs) => exists|i: int|
            0 <= i < cs.len() && holds(e, #[trigger] cs[i], params, row),
        Cond::Group(c) => holds(e, *c, params, row),
    }
}

pub open spec fn exprs_binds(xs: Seq<Expr>) -> Seq<ValueView>
    decreases xs.len(),
{
    if xs.len() == 0 {
        Seq::empty()
    } else {
        exprs_binds(xs.drop_last()) + expr_binds(xs.last())
    }
}

/// The values that are bound in a condition, in the order of the text.
pub open spec fn cond_binds(c: Cond) -> Seq<ValueView>
    decreases c,
{
    match c {
        Cond::Fixed(_) => Seq::empty(),
        Cond::Test(a, _, b) => expr_binds(a) + expr_binds(b),
        Cond::Tight(a, _, b) => expr_binds(a) + expr_binds(b),
        Cond::IsNull(a) => expr_binds(a),
        Cond::NotNull(a) => expr_binds(a),
        Cond::Among(a, xs) => expr_binds(a) + exprs_binds(xs),
        Cond::All(cs) => conds_binds(cs),
        Cond::Any(cs) => conds_binds(cs),
        Cond::Group(c) => cond_binds(*c),
    }
}

pub open spec fn conds_binds(cs: Seq<Cond>) -> Seq<ValueView>
    decreases cs,
{
    if cs.len() == 0 {
        Seq::empty()
    } else {
        conds_binds(cs.drop_last()) + cond_binds(cs.last())
    }
}

// ---- Changes ---------------------------------------------------------------

/// What happens to a row that would stand in the way of another with the same key.
pub enum Clash {
    /// The statement is refused.
    Refuse,
    /// The row that is there stays, and none is added.
    Ignore,
    /// The row that is there takes over a column of the other. The key is what these
    /// columns hold.
    TakeOver { key: Seq<Seq<char>>, column: Seq<char> },
}

pub enum Change {
    Insert { table: Seq<char>, columns: Seq<Seq<char>>, values: Seq<Expr>, clash: Clash },
    Update { table: Seq<char>, sets: Seq<(Seq<char>, Expr)>, cond: Cond },
    Delete { table: Seq<char>, cond: Cond },
}

pub open spec fn set_texts(sets: Seq<(Seq<char>, Expr)>) -> Seq<Seq<char>> {
    Seq::new(sets.len(), |i: int| sets[i].0 + " = "@ + expr_text(sets[i].1))
}

pub open spec fn clash_head(c: Clash) -> Seq<char> {
    match c {
        Clash::Ignore => "INSERT OR IGNORE INTO "@,
        _ => "INSERT INTO "@,
    }
}

pub open spec fn clash_tail(c: Clash) -> Seq<char> {
    match c {
        Clash::TakeOver { key, column } => " ON CONFLICT("@ + join(key, ", "@)
            + ") DO UPDATE SET "@ + column + " = excluded."@ + column,
        _ => Seq::empty(),
    }
}

pub open spec fn change_text(c: Change) -> Seq<char> {
    match c {
        Change::Insert { table, columns, values, clash } => clash_head(clash) + table + " ("@
            + join(columns, ", "@) + ") VALUES ("@ + join(expr_texts(values), ", "@) + ")"@
            + clash_tail(clash),
        Change::Update { table, sets, cond } => "UPDATE "@ + table + " SET "@ + join(
            set_texts(sets),
            ", "@,
        ) + " WHERE "@ + cond_text(cond),
        Change::Delete { table, cond } => "DELETE FROM "@ + table + " WHERE "@ + cond_text(cond),
    }
}

pub open spec fn change_ok(c: Change) -> bool {
    match c {
        Change::Insert { table, columns, values, clash } => {
            &&& ident(table)
            &&& columns.len() == values.len() > 0
            &&& forall|i: int| 0 <= i < columns.len() ==> ident(#[trigger] columns[i])
            &&& forall|i: int| 0 <= i < values.len() ==> expr_ok(#[trigger] values[i])
            &&& clash matches Clash::TakeOver { key, column } ==> ident(column) && key.len() > 0
                && forall|i: int| 0 <= i < key.len() ==> ident(#[trigger] key[i])
        },
        Change::Update { table, sets, cond } => {
            &&& ident(table)
            &&& sets.len() > 0
            &&& forall|i: int|
                0 <= i < sets.len() ==> ident((#[trigger] sets[i]).0) && expr_ok(sets[i].1)
            &&& cond_ok(cond)
        },
        Change::Delete { table, cond } => ident(table) && cond_ok(cond),
    }
}

/// The row that an insert makes: the columns that it does not name are null.
pub open spec fn new_row(
    e: Engine,
    columns: Seq<Seq<char>>,
    values: Seq<Expr>,
    params: Seq<ValueView>,
) -> Row
    decreases columns.len(),
{
    if columns.len() == 0 {
        Map::total(|c: Seq<char>| ValueView::Null)
    } else {
        new_row(e, columns.drop_last(), values.drop_last(), params).insert(
            columns.last(),
            expr_value(e, values.last(), params, Map::empty()),
        )
    }
}

/// A row with its columns set, all from what it held before.
pub open spec fn set_row(
    e: Engine,
    sets: Seq<(Seq<char>, Expr)>,
    params: Seq<ValueView>,
    row: Row,
) -> Row
    decreases sets.len(),
{
    if sets.len() == 0 {
        row
    } else {
        set_row(e, sets.drop_last(), params, row).insert(
            sets.last().0,
            expr_value(e, sets.last().1, params, row),
        )
    }
}

/// Two rows hold the same in these columns.
pub open spec fn same_key(a: Row, b: Row, key: Seq<Seq<char>>) -> bool {
    forall|i: int| 0 <= i < key.len() ==> a[#[trigger] key[i]] == b[key[i]]
}

/// Some row of the table has the key of another row.
pub open spec fn clashes(t: Table, row: Row, key: Seq<Seq<char>>) -> bool {
    exists|k: int| #[trigger] t.contains_key(k) && same_key(t[k], row, key)
}

/// The table after an insert under the row number `at`, where no two rows may hold the
/// same in the columns `key`; none where the insert is refused.
pub open spec fn inserted(t: Table, row: Row, key: Seq<Seq<char>>, clash: Clash, at: int) -> Option<
    Table,
> {
    if !clashes(t, row, key) {
        Some(t.insert(at, row))
    } else {
        match clash {
            Clash::Refuse => None,
            Clash::Ignore => Some(t),
            Clash::TakeOver { key: named, column } => if named == key {
                Some(
                    t.map_values(
                        |r: Row|
                            if same_key(r, row, key) {
                                r.insert(column, row[column])
                            } else {
                                r
                            },
                    ),
                )
            } else {
                None
            },
        }
    }
}

/// The table that a change is made to.
pub open spec fn changed_table(c: Change) -> Seq<char> {
    match c {
        Change::Insert { table, .. } => table,
        Change::Update { table, .. } => table,
        Change::Delete { table, .. } => table,
    }
}

/// The table after a change; none where the change is refused. `key` are the columns in
/// which no two rows of the table hold the same, and `at` is the number of a row that is
/// added.
pub open spec fn changed(
    e: Engine,
    c: Change,
    params: Seq<ValueView>,
    t: Table,
    key: Seq<Seq<char>>,
    at: int,
) -> Option<Table> {
    match c {
        Change::Insert { columns, values, clash, .. } => inserted(
            t,
            new_row(e, columns, values, params),
            key,
            clash,
            at,
        ),
        Change::Update { sets, cond, .. } => Some(
            t.map_values(
                |r: Row|
                    if holds(e, cond, params, r) {
                        set_row(e, sets, params, r)
                    } else {
                        r
                    },
            ),
        ),
        Change::Delete { cond, .. } => Some(
            t.restrict(Set::new(|k: int| t.contains_key(k) && !holds(e, cond, params, t[k]))),
        ),
    }
}

/// The statement says: in this table, and in no other, make this of what is there.
pub open spec fn makes(
    e: Engine,
    s: StatementView,
    table: Seq<char>,
    key: Seq<Seq<char>>,
    at: int,
    before: Table,
    after: Option<Table>,
) -> bool {
    exists|c: Change|
        {
            &&& #[trigger] change_ok(c)
            &&& s.sql == change_text(c)
            &&& s.mode == crate::sql::Mode::Execute
            &&& changed_table(c) == table
            &&& changed(e, c, s.params, before, key, at) == after
        }
}

// ---- Questions -------------------------------------------------------------

pub enum Wanted {
    Cells(Seq<Expr>),
    /// The number of the rows.
    Count,
    /// The greatest number in a column, or zero where there is none.
    Greatest(Seq<char>),
    /// The least number in a column, or null where there is none.
    Least(Seq<char>),
}

pub enum Direction {
    Unsaid,
    Ascending,
    Descending,
}

pub struct Question {
    pub wanted: Wanted,
    pub table: Seq<char>,
    pub cond: Option<Cond>,
    pub order: Seq<(Expr, Direction)>,
    pub limit: Option<nat>,
    pub offset: Option<nat>,
}

pub open spec fn wanted_text(w: Wanted) -> Seq<char> {
    match w {
        Wanted::Cells(xs) => join(expr_texts(xs), ", "@),
        Wanted::Count => "count(*)"@,
        Wanted::Greatest(c) => "COALESCE(MAX("@ + c + "), 0)"@,
        Wanted::Least(c) => "MIN("@ + c + ")"@,
    }
}

pub open spec fn direction_text(d: Direction) -> Seq<char> {
    match d {
        Direction::Unsaid => Seq::empty(),
        Direction::Ascending => " ASC"@,
        Direction::Descending => " DESC"@,
    }
}

pub open spec fn order_texts(order: Seq<(Expr, Direction)>) -> Seq<Seq<char>> {
    Seq::new(order.len(), |i: int| expr_text(order[i].0) + direction_text(order[i].1))
}

pub open spec fn question_text(q: Question) -> Seq<char> {
    "SELECT "@ + wanted_text(q.wanted) + " FROM "@ + q.table + (match q.cond {
        Some(c) => " WHERE "@ + cond_text(c),
        None => Seq::empty(),
    }) + (if q.order.len() > 0 {
        " ORDER BY "@ + join(order_texts(q.order), ", "@)
    } else {
        Seq::empty()
    }) + (match q.limit {
        Some(n) => " LIMIT "@ + decimal(n),
        None => Seq::empty(),
    }) + (match q.offset {
        Some(n) => " OFFSET "@ + decimal(n),
        None => Seq::empty(),
    })
}

pub open spec fn question_ok(q: Question) -> bool {
    &&& ident(q.table)
    &&& match q.wanted {
        Wanted::Cells(xs) => xs.len() > 0 && forall|i: int|
            0 <= i < xs.len() ==> expr_ok(#[trigger] xs[i]),
        Wanted::Count => true,
        Wanted::Greatest(c) => ident(c),
        Wanted::Least(c) => ident(c),
    }
    &&& q.cond matches Some(c) ==> cond_ok(c)
    &&& forall|i: int| 0 <= i < q.order.len() ==> expr_ok((#[trigger] q.order[i]).0)
    &&& q.offset is Some ==> q.limit is Some
}

/// The values that are bound in a question.
pub open spec fn question_binds(q: Question) -> Seq<ValueView> {
    match q.cond {
        Some(c) => cond_binds(c),
        None => Seq::empty(),
    }
}

/// The row is one of those that the question is about.
pub open spec fn chosen(e: Engine, q: Question, params: Seq<ValueView>, row: Row) -> bool {
    match q.cond {
        Some(c) => holds(e, c, params, row),
        None => true,
    }
}

/// One row comes before another in the order: by the first term in which they differ.
pub open spec fn ahead(
    e: Engine,
    order: Seq<(Expr, Direction)>,
    params: Seq<ValueView>,
    a: Row,
    b: Row,
) -> bool
    decreases order.len(),
{
    if order.len() == 0 {
        false
    } else {
        let x = expr_value(e, order[0].0, params, a);
        let y = expr_value(e, order[0].0, params, b);
        let first = if order[0].1 is Descending {
            sorts_before(e, y, x)
        } else {
            sorts_before(e, x, y)
        };
        let last = if order[0].1 is Descending {
            sorts_before(e, x, y)
        } else {
            sorts_before(e, y, x)
        };
        first || (!last && ahead(e, order.skip(1), params, a, b))
    }
}

/// One value comes before another where values are sorted: null comes first.
pub open spec fn sorts_before(e: Engine, a: ValueView, b: ValueView) -> bool {
    less_value(e, a, b) || (a is Null && !(b is Null))
}

/// The numbers of the rows that the question is about, each once, in the order that it
/// asks for.
pub open spec fn lists(
    e: Engine,
    q: Question,
    params: Seq<ValueView>,
    t: Table,
    ks: Seq<int>,
) -> bool {
    &&& ks.no_duplicates()
    &&& forall|k: int| #[trigger]
        ks.contains(k) <==> t.contains_key(k) && chosen(e, q, params, t[k])
    &&& forall|i: int, j: int|
        0 <= i < j < ks.len() ==> !ahead(e, q.order, params, t[#[trigger] ks[j]], t[#[trigger] ks[i]])
}

/// What is left of a list when it is cut as the question asks.
pub open spec fn cut(q: Question, ks: Seq<int>) -> Seq<int> {
    let from = match q.offset {
        Some(n) => n as int,
        None => 0,
    };
    let rest = if from <= ks.len() {
        ks.skip(from)
    } else {
        Seq::empty()
    };
    match q.limit {
        Some(n) => if n <= rest.len() {
            rest.take(n as int)
        } else {
            rest
        },
        None => rest,
    }
}

/// The cells of a row.
pub open spec fn cells(e: Engine, xs: Seq<Expr>, params: Seq<ValueView>, row: Row) -> Seq<
    ValueView,
> {
    Seq::new(xs.len(), |i: int| expr_value(e, xs[i], params, row))
}

/// The number is the greatest that some of the rows hold in a column.
pub open spec fn greatest_in(t: Table, ks: Seq<int>, column: Seq<char>, n: i64) -> bool {
    &&& forall|i: int| 0 <= i < ks.len() ==> (t[#[trigger] ks[i]][column] matches ValueView::Integer(m)
        && m <= n)
    &&& exists|i: int| 0 <= i < ks.len() && t[#[trigger] ks[i]][column] == ValueView::Integer(n)
}

/// The number is the least that some of the rows hold in a column.
pub open spec fn least_in(t: Table, ks: Seq<int>, column: Seq<char>, n: i64) -> bool {
    &&& forall|i: int| 0 <= i < ks.len() ==> (t[#[trigger] ks[i]][column] matches ValueView::Integer(m)
        && n <= m)
    &&& exists|i: int| 0 <= i < ks.len() && t[#[trigger] ks[i]][column] == ValueView::Integer(n)
}

/// The rows are an answer to the question.
pub open spec fn answers(
    e: Engine,
    q: Question,
    params: Seq<ValueView>,
    t: Table,
    rows: Seq<Seq<ValueView>>,
) -> bool {
    exists|ks: Seq<int>|
        {
            &&& #[trigger] lists(e, q, params, t, ks)
            &&& match q.wanted {
                Wanted::Cells(xs) => rows == Seq::new(
                    cut(q, ks).len(),
                    |i: int| cells(e, xs, params, t[cut(q, ks)[i]]),
                ),
                Wanted::Count => ks.len() <= i64::MAX && rows == seq![
                    seq![ValueView::Integer(ks.len() as i64)],
                ],
                Wanted::Greatest(c) => if ks.len() == 0 {
                    rows == seq![seq![ValueView::Integer(0)]]
                } else {
                    exists|n: i64| #[trigger]
                        greatest_in(t, ks, c, n) && rows == seq![seq![ValueView::Integer(n)]]
                },
                Wanted::Least(c) => if ks.len() == 0 {
                    rows == seq![seq![ValueView::Null]]
                } else {
                    exists|n: i64| #[trigger]
                        least_in(t, ks, c, n) && rows == seq![seq![ValueView::Integer(n)]]
                },
            }
        }
}

/// The statement is the question, written down, with the values that it binds.
pub open spec fn asks(s: StatementView, q: Question) -> bool {
    &&& question_ok(q)
    &&& s.sql == question_text(q)
    &&& s.mode == crate::sql::Mode::Query
    &&& question_binds(q).len() == 0 || question_binds(q) == s.params
}

/// Whatever the engine answers to the statement from this table, `p` says of the rows.
pub open spec fn told(
    e: Engine,
    s: StatementView,
    table: Seq<char>,
    t: Table,
    p: spec_fn(Seq<Seq<ValueView>>) -> bool,
) -> bool {
    exists|q: Question|
        {
            &&& #[trigger] asks(s, q)
            &&& q.table == table
            &&& forall|rows: Seq<Seq<ValueView>>| #[trigger]
                answers(e, q, s.params, t, rows) ==> p(rows)
        }
}

// ---- Conditions in parts ---------------------------------------------------

pub proof fn lemma_cond_texts(cs: Seq<Cond>)
    ensures
        cond_texts(cs).len() == cs.len(),
        forall|i: int| 0 <= i < cs.len() ==> #[trigger] cond_texts(cs)[i] == cond_text(cs[i]),
    decreases cs.len(),
{
    if cs.len() > 0 {
        lemma_cond_texts(cs.drop_last());
    }
}

pub proof fn lemma_all_holds(e: Engine, cs: Seq<Cond>, params: Seq<ValueView>, row: Row)
    ensures
        holds(e, Cond::All(cs), params, row) <==> forall|i: int|
            0 <= i < cs.len() ==> holds(e, #[trigger] cs[i], params, row),
        holds(e, Cond::Any(cs), params, row) <==> exists|i: int|
            0 <= i < cs.len() && holds(e, #[trigger] cs[i], params, row),
        holds(e, Cond::Group(Box::new(Cond::All(cs))), params, row) <==> holds(
            e,
            Cond::All(cs),
            params,
            row,
        ),
        holds(e, Cond::Group(Box::new(Cond::Any(cs))), params, row) <==> holds(
            e,
            Cond::Any(cs),
            params,
            row,
        ),
{
    let all = Cond::All(cs);
    let any = Cond::Any(cs);
    if holds(e, all, params, row) {
        assert forall|i: int| 0 <= i < cs.len() implies holds(e, #[trigger] cs[i], params, row) by {
            assert(all->All_0[i] == cs[i]);
        }
    }
    if forall|i: int| 0 <= i < cs.len() ==> holds(e, #[trigger] cs[i], params, row) {
        assert(holds(e, all, params, row));
    }
    if holds(e, any, params, row) {
        let i = choose|i: int|
            0 <= i < any->Any_0.len() && holds(e, #[trigger] any->Any_0[i], params, row);
        assert(holds(e, cs[i], params, row));
    }
    if exists|i: int| 0 <= i < cs.len() && holds(e, #[trigger] cs[i], params, row) {
        assert(holds(e, any, params, row));
    }
}

// ---- Short lists -----------------------------------------------------------

pub proof fn lemma_join1(a: Seq<char>, sep: Seq<char>)
    ensures
        join(seq![a], sep) == a,
{
}

pub proof fn lemma_join_more(front: Seq<Seq<char>>, a: Seq<char>, sep: Seq<char>)
    requires
        front.len() > 0,
    ensures
        join(front.push(a), sep) == join(front, sep) + sep + a,
{
    assert(front.push(a).drop_last() =~= front);
}

pub proof fn lemma_join2(a: Seq<char>, b: Seq<char>, sep: Seq<char>)
    ensures
        join(seq![a, b], sep) == a + sep + b,
{
    lemma_join1(a, sep);
    lemma_join_more(seq![a], b, sep);
    assert(seq![a, b] =~= seq![a].push(b));
}

pub proof fn lemma_join3(a: Seq<char>, b: Seq<char>, c: Seq<char>, sep: Seq<char>)
    ensures
        join(seq![a, b, c], sep) == a + sep + b + sep + c,
{
    lemma_join2(a, b, sep);
    lemma_join_more(seq![a, b], c, sep);
    assert(seq![a, b, c] =~= seq![a, b].push(c));
}

pub proof fn lemma_join4(a: Seq<char>, b: Seq<char>, c: Seq<char>, d: Seq<char>, sep: Seq<char>)
    ensures
        join(seq![a, b, c, d], sep) == a + sep + b + sep + c + sep + d,
{
    lemma_join3(a, b, c, sep);
    lemma_join_more(seq![a, b, c], d, sep);
    assert(seq![a, b, c, d] =~= seq![a, b, c].push(d));
}

pub proof fn lemma_join5(
    a: Seq<char>,
    b: Seq<char>,
    c: Seq<char>,
    d: Seq<char>,
    f: Seq<char>,
    sep: Seq<char>,
)
    ensures
        join(seq![a, b, c, d, f], sep) == a + sep + b + sep + c + sep + d + sep + f,
{
    lemma_join4(a, b, c, d, sep);
    lemma_join_more(seq![a, b, c, d], f, sep);
    assert(seq![a, b, c, d, f] =~= seq![a, b, c, d].push(f));
}

pub proof fn lemma_join6(
    a: Seq<char>,
    b: Seq<char>,
    c: Seq<char>,
    d: Seq<char>,
    f: Seq<char>,
    g: Seq<char>,
    sep: Seq<char>,
)
    ensures
        join(seq![a, b, c, d, f, g], sep) == a + sep + b + sep + c + sep + d + sep + f + sep + g,
{
    lemma_join5(a, b, c, d, f, sep);
    lemma_join_more(seq![a, b, c, d, f], g, sep);
    assert(seq![a, b, c, d, f, g] =~= seq![a, b, c, d, f].push(g));
}

pub proof fn lemma_join8(
    a: Seq<char>,
    b: Seq<char>,
    c: Seq<char>,
    d: Seq<char>,
    f: Seq<char>,
    g: Seq<char>,
    h: Seq<char>,
    k: Seq<char>,
    sep: Seq<char>,
)
    ensures
        join(seq![a, b, c, d, f, g, h, k], sep) == a + sep + b + sep + c + sep + d + sep + f + sep
            + g + sep + h + sep + k,
{
    lemma_join6(a, b, c, d, f, g, sep);
    lemma_join_more(seq![a, b, c, d, f, g], h, sep);
    lemma_join_more(seq![a, b, c, d, f, g, h], k, sep);
    assert(seq![a, b, c, d, f, g, h] =~= seq![a, b, c, d, f, g].push(h));
    assert(seq![a, b, c, d, f, g, h, k] =~= seq![a, b, c, d, f, g, h].push(k));
}

/// The least numbers, as they are written.
pub proof fn lemma_numbers()
    ensures
        expr_text(Expr::Number(0)) == "0"@,
        expr_text(Expr::Number(1)) == "1"@,
        decimal(1) == "1"@,
{
    reveal_strlit("0");
    reveal_strlit("1");
    assert(expr_text(Expr::Number(0)) =~= "0"@);
    assert(expr_text(Expr::Number(1)) =~= "1"@);
}

/// Two conditions that both have to hold.
pub open spec fn both(a: Cond, b: Cond) -> Cond {
    Cond::All(seq![a, b])
}

/// Two conditions of which one has to hold.
pub open spec fn either(a: Cond, b: Cond) -> Cond {
    Cond::Any(seq![a, b])
}

/// Three conditions that all have to hold.
pub open spec fn three(a: Cond, b: Cond, c: Cond) -> Cond {
    Cond::All(seq![a, b, c])
}

/// Two conditions side by side.
pub proof fn lemma_both(a: Cond, b: Cond)
    ensures
        cond_text(both(a, b)) == cond_text(a) + " AND "@ + cond_text(b),
        cond_text(either(a, b)) == cond_text(a) + " OR "@ + cond_text(b),
        cond_ok(a) && cond_ok(b) && !(a is Any) && !(b is Any) ==> cond_ok(both(a, b)),
        cond_ok(a) && cond_ok(b) ==> cond_ok(either(a, b)),
        forall|e: Engine, params: Seq<ValueView>, row: Row| #[trigger]
            holds(e, both(a, b), params, row) <==> holds(e, a, params, row) && holds(
                e,
                b,
                params,
                row,
            ),
        forall|e: Engine, params: Seq<ValueView>, row: Row| #[trigger]
            holds(e, either(a, b), params, row) <==> holds(e, a, params, row) || holds(
                e,
                b,
                params,
                row,
            ),
        cond_binds(both(a, b)) == cond_binds(a) + cond_binds(b),
        cond_binds(either(a, b)) == cond_binds(a) + cond_binds(b),
{
    let cs = seq![a, b];
    lemma_cond_texts(cs);
    assert(cond_texts(cs) =~= seq![cond_text(a), cond_text(b)]);
    lemma_join2(cond_text(a), cond_text(b), " AND "@);
    lemma_join2(cond_text(a), cond_text(b), " OR "@);
    assert(cs.drop_last() =~= seq![a]);
    assert(seq![a].drop_last() =~= Seq::<Cond>::empty());
    assert(conds_binds(Seq::<Cond>::empty()) =~= Seq::empty());
    assert(conds_binds(seq![a]) =~= cond_binds(a));
    assert(conds_binds(cs) == cond_binds(a) + cond_binds(b));
    assert forall|e: Engine, params: Seq<ValueView>, row: Row| #[trigger]
        holds(e, both(a, b), params, row) <==> holds(e, a, params, row) && holds(
        e,
        b,
        params,
        row,
    ) by {
        lemma_all_holds(e, cs, params, row);
        if holds(e, both(a, b), params, row) {
            assert(holds(e, cs[0], params, row) && holds(e, cs[1], params, row));
        }
    }
    assert forall|e: Engine, params: Seq<ValueView>, row: Row| #[trigger]
        holds(e, either(a, b), params, row) <==> holds(e, a, params, row) || holds(
        e,
        b,
        params,
        row,
    ) by {
        lemma_all_holds(e, cs, params, row);
        if holds(e, a, params, row) {
            assert(holds(e, cs[0], params, row));
        }
        if holds(e, b, params, row) {
            assert(holds(e, cs[1], params, row));
        }
    }
}

/// Three conditions side by side.
pub proof fn lemma_three(a: Cond, b: Cond, c: Cond)
    ensures
        cond_text(three(a, b, c)) == cond_text(a) + " AND "@ + cond_text(b) + " AND "@
            + cond_text(c),
        cond_ok(a) && cond_ok(b) && cond_ok(c) && !(a is Any) && !(b is Any) && !(c is Any)
            ==> cond_ok(three(a, b, c)),
        forall|e: Engine, params: Seq<ValueView>, row: Row| #[trigger]
            holds(e, three(a, b, c), params, row) <==> holds(e, a, params, row)
                && holds(e, b, params, row) && holds(e, c, params, row),
        cond_binds(three(a, b, c)) == cond_binds(a) + cond_binds(b) + cond_binds(c),
{
    let cs = seq![a, b, c];
    lemma_cond_texts(cs);
    assert(cond_texts(cs) =~= seq![cond_text(a), cond_text(b), cond_text(c)]);
    lemma_join3(cond_text(a), cond_text(b), cond_text(c), " AND "@);
    lemma_both(a, b);
    assert(cs.drop_last() =~= seq![a, b]);
    assert(cond_binds(both(a, b)) == conds_binds(seq![a, b]));
    assert(conds_binds(cs) == conds_binds(seq![a, b]) + cond_binds(c));
    assert forall|e: Engine, params: Seq<ValueView>, row: Row| #[trigger]
        holds(e, three(a, b, c), params, row) <==> holds(e, a, params, row) && holds(
        e,
        b,
        params,
        row,
    ) && holds(e, c, params, row) by {
        lemma_all_holds(e, cs, params, row);
        if holds(e, three(a, b, c), params, row) {
            assert(holds(e, cs[0], params, row) && holds(e, cs[1], params, row) && holds(
                e,
                cs[2],
                params,
                row,
            ));
        }
    }
}

/// The parameters, as they are written.
pub proof fn lemma_params()
    ensures
        expr_text(Expr::Param(1)) == "?1"@,
        expr_text(Expr::Param(2)) == "?2"@,
        expr_text(Expr::Param(3)) == "?3"@,
        expr_text(Expr::Param(4)) == "?4"@,
        expr_text(Expr::Param(5)) == "?5"@,
        expr_text(Expr::Param(6)) == "?6"@,
{
    reveal_strlit("?");
    reveal_strlit("?1");
    reveal_strlit("?2");
    reveal_strlit("?3");
    reveal_strlit("?4");
    reveal_strlit("?5");
    reveal_strlit("?6");
    assert(expr_text(Expr::Param(1)) =~= "?1"@);
    assert(expr_text(Expr::Param(2)) =~= "?2"@);
    assert(expr_text(Expr::Param(3)) =~= "?3"@);
    assert(expr_text(Expr::Param(4)) =~= "?4"@);
    assert(expr_text(Expr::Param(5)) =~= "?5"@);
    assert(expr_text(Expr::Param(6)) =~= "?6"@);
}

/// The row that an insert makes holds each value in its column.
pub proof fn lemma_new_row(
    e: Engine,
    columns: Seq<Seq<char>>,
    values: Seq<Expr>,
    params: Seq<ValueView>,
)
    requires
        columns.len() == values.len(),
        columns.no_duplicates(),
    ensures
        ({
            let row = new_row(e, columns, values, params);
            &&& forall|c: Seq<char>| #[trigger] row.contains_key(c)
            &&& forall|i: int|
                0 <= i < columns.len() ==> row[#[trigger] columns[i]] == expr_value(
                    e,
                    values[i],
                    params,
                    Map::empty(),
                )
            &&& forall|c: Seq<char>| !columns.contains(c) ==> #[trigger] row[c] == ValueView::Null
        }),
    decreases columns.len(),
{
    if columns.len() > 0 {
        let front = columns.drop_last();
        assert(front.no_duplicates());
        lemma_new_row(e, front, values.drop_last(), params);
        let row = new_row(e, columns, values, params);
        let before = new_row(e, front, values.drop_last(), params);
        assert forall|i: int| 0 <= i < columns.len() implies row[#[trigger] columns[i]]
            == expr_value(e, values[i], params, Map::empty()) by {
            if i < front.len() {
                assert(front[i] == columns[i]);
                assert(before[front[i]] == expr_value(e, values[i], params, Map::empty()));
            }
        }
        assert forall|c: Seq<char>| !columns.contains(c) implies #[trigger] row[c]
            == ValueView::Null by {
            assert(columns[columns.len() - 1] == columns.last());
            assert(!front.contains(c)) by {
                if front.contains(c) {
                    let i = choose|i: int| 0 <= i < front.len() && front[i] == c;
                    assert(columns[i] == c);
                }
            }
        }
    }
}

/// Where one row of a table is the only one that a question is about, it is what is
/// listed.
pub proof fn lemma_lists_one(
    e: Engine,
    q: Question,
    params: Seq<ValueView>,
    t: Table,
    ks: Seq<int>,
    k: int,
)
    requires
        lists(e, q, params, t, ks),
        t.contains_key(k),
        forall|j: int| #[trigger] t.contains_key(j) ==> (chosen(e, q, params, t[j]) <==> j == k),
    ensures
        ks == seq![k],
{
    assert(ks.contains(k));
    if ks.len() > 1 {
        assert(ks.contains(ks[0]) && ks.contains(ks[1]));
    }
    let i = choose|i: int| 0 <= i < ks.len() && ks[i] == k;
    assert(ks =~= seq![k]);
}

/// Where a question is about no row, nothing is listed.
pub proof fn lemma_lists_none(
    e: Engine,
    q: Question,
    params: Seq<ValueView>,
    t: Table,
    ks: Seq<int>,
)
    requires
        lists(e, q, params, t, ks),
        forall|j: int| #[trigger] t.contains_key(j) ==> !chosen(e, q, params, t[j]),
    ensures
        ks.len() == 0,
{
    if ks.len() > 0 {
        assert(ks.contains(ks[0]));
    }
}

// ---- What a statement is for -----------------------------------------------

/// The statement takes out of a table exactly the rows of which `p` holds.
pub open spec fn deletes(
    s: StatementView,
    table: Seq<char>,
    p: spec_fn(Engine, Row) -> bool,
) -> bool {
    exists|cond: Cond|
        {
            &&& #[trigger] change_ok(Change::Delete { table, cond })
            &&& s.sql == change_text(Change::Delete { table, cond })
            &&& s.mode == crate::sql::Mode::Execute
            &&& forall|e: Engine, row: Row| #[trigger]
                holds(e, cond, s.params, row) <==> p(e, row)
        }
}

/// The statement gives exactly the rows of which `p` holds other cells, as `f` says.
pub open spec fn updates(
    s: StatementView,
    table: Seq<char>,
    p: spec_fn(Engine, Row) -> bool,
    f: spec_fn(Row) -> Row,
) -> bool {
    exists|sets: Seq<(Seq<char>, Expr)>, cond: Cond|
        {
            &&& #[trigger] change_ok(Change::Update { table, sets, cond })
            &&& s.sql == change_text(Change::Update { table, sets, cond })
            &&& s.mode == crate::sql::Mode::Execute
            &&& forall|e: Engine, row: Row| #[trigger]
                holds(e, cond, s.params, row) <==> p(e, row)
            &&& forall|e: Engine, row: Row| #[trigger] set_row(e, sets, s.params, row) == f(row)
        }
}

/// The row with these cells, and null in all others.
pub open spec fn row_of(cells: Seq<(Seq<char>, ValueView)>) -> Row
    decreases cells.len(),
{
    if cells.len() == 0 {
        Map::total(|c: Seq<char>| ValueView::Null)
    } else {
        row_of(cells.drop_last()).insert(cells.last().0, cells.last().1)
    }
}

/// The statement adds this row to a table; where another row is in the way, it does what
/// `clash` says.
pub open spec fn enters(s: StatementView, table: Seq<char>, row: Row, clash: Clash) -> bool {
    exists|columns: Seq<Seq<char>>, values: Seq<Expr>|
        {
            &&& #[trigger] change_ok(Change::Insert { table, columns, values, clash })
            &&& s.sql == change_text(Change::Insert { table, columns, values, clash })
            &&& s.mode == crate::sql::Mode::Execute
            &&& forall|e: Engine| #[trigger] new_row(e, columns, values, s.params) == row
        }
}

/// The statement asks a table for these cells of exactly the rows of which `p` holds, in
/// this order, and for no more than the limit.
pub open spec fn seeks(
    s: StatementView,
    table: Seq<char>,
    wanted: Wanted,
    p: spec_fn(Engine, Row) -> bool,
    order: Seq<(Expr, Direction)>,
    limit: Option<nat>,
) -> bool {
    exists|q: Question|
        {
            &&& #[trigger] asks(s, q)
            &&& q.table == table
            &&& q.wanted == wanted
            &&& q.order == order
            &&& q.limit == limit
            &&& q.offset is None
            &&& forall|e: Engine, row: Row| #[trigger]
                chosen(e, q, s.params, row) <==> p(e, row)
        }
}

/// The row that an insert makes, cell by cell.
pub proof fn lemma_row_of(
    e: Engine,
    columns: Seq<Seq<char>>,
    values: Seq<Expr>,
    params: Seq<ValueView>,
    cells: Seq<(Seq<char>, ValueView)>,
)
    requires
        columns.len() == values.len() == cells.len(),
        forall|i: int|
            0 <= i < cells.len() ==> (#[trigger] cells[i]).0 == columns[i] && cells[i].1
                == expr_value(e, values[i], params, Map::empty()),
    ensures
        new_row(e, columns, values, params) == row_of(cells),
    decreases cells.len(),
{
    if cells.len() > 0 {
        let front = cells.drop_last();
        assert forall|i: int| 0 <= i < front.len() implies (#[trigger] front[i]).0
            == columns.drop_last()[i] && front[i].1 == expr_value(
            e,
            values.drop_last()[i],
            params,
            Map::empty(),
        ) by {
            assert(front[i] == cells[i]);
        }
        lemma_row_of(e, columns.drop_last(), values.drop_last(), params, front);
        assert(cells[cells.len() - 1] == cells.last());
    }
}

} // verus!
