//! Statements for the database engine, what it replies, and how its cells are
//! read.

use crate::errors::{internal_error, map_sqlite_err, sql_error, ApiError, ErrorView, SqlFailure};
use crate::text::{parse_signed, parsed_signed, trim_text, trimmed};
use vstd::prelude::*;

verus! {

/// A cell, or a bound parameter. A real is kept as the bits of its double.
#[derive(Debug, PartialEq)]
pub enum Value {
    Null,
    Integer(i64),
    Real(u64),
    Text(String),
    Blob(Vec<u8>),
}

pub enum ValueView {
    Null,
    Integer(i64),
    Real(u64),
    Text(Seq<char>),
    Blob(Seq<u8>),
}

impl View for Value {
    type V = ValueView;

    open spec fn view(&self) -> ValueView {
        match *self {
            Value::Null => ValueView::Null,
            Value::Integer(i) => ValueView::Integer(i),
            Value::Real(b) => ValueView::Real(b),
            Value::Text(s) => ValueView::Text(s@),
            Value::Blob(b) => ValueView::Blob(b@),
        }
    }
}

pub open spec fn value_views(v: Seq<Value>) -> Seq<ValueView> {
    Seq::new(v.len(), |i: int| v[i]@)
}

/// How a statement is run.
#[derive(Debug, Clone, Copy, PartialEq, Eq, Structural)]
pub enum Mode {
    /// A script without parameters; nothing comes back.
    Batch,
    /// One statement; the number of changed rows comes back.
    Execute,
    /// One statement; its rows come back.
    Query,
}

/// One request to the database engine.
#[derive(Debug)]
pub struct Statement {
    pub sql: String,
    pub params: Vec<Value>,
    pub mode: Mode,
}

#[verifier::ext_equal]
pub struct StatementView {
    pub sql: Seq<char>,
    pub params: Seq<ValueView>,
    pub mode: Mode,
}

impl View for Statement {
    type V = StatementView;

    open spec fn view(&self) -> StatementView {
        StatementView { sql: self.sql@, params: value_views(self.params@), mode: self.mode }
    }
}

pub open spec fn batch_view(sql: Seq<char>) -> StatementView {
    StatementView { sql, params: Seq::empty(), mode: Mode::Batch }
}

pub open spec fn execute_view(sql: Seq<char>, params: Seq<ValueView>) -> StatementView {
    StatementView { sql, params, mode: Mode::Execute }
}

pub open spec fn query_view(sql: Seq<char>, params: Seq<ValueView>) -> StatementView {
    StatementView { sql, params, mode: Mode::Query }
}

/// A script.
pub fn batch(sql: &str) -> (r: Statement)
    ensures
        r@ == batch_view(sql@),
{
    let r = Statement { sql: sql.to_string(), params: Vec::new(), mode: Mode::Batch };
    assert(r@.params =~= Seq::empty());
    r
}

/// A statement that changes rows.
pub fn execute(sql: &str, params: Vec<Value>) -> (r: Statement)
    ensures
        r@ == execute_view(sql@, value_views(params@)),
{
    Statement { sql: sql.to_string(), params, mode: Mode::Execute }
}

/// A query without parameters.
pub fn no_params(sql: &str) -> (r: Statement)
    ensures
        r@ == query_view(sql@, Seq::empty()),
{
    let v: Vec<Value> = Vec::new();
    assert(value_views(v@) =~= Seq::empty());
    query(sql, v)
}

/// A statement that yields rows.
pub fn query(sql: &str, params: Vec<Value>) -> (r: Statement)
    ensures
        r@ == query_view(sql@, value_views(params@)),
{
    Statement { sql: sql.to_string(), params, mode: Mode::Query }
}

/// A text parameter.
pub fn text_value(s: &str) -> (r: Value)
    ensures
        r@ == ValueView::Text(s@),
{
    Value::Text(s.to_string())
}

/// Adds a parameter.
pub fn push_value(v: &mut Vec<Value>, x: Value)
    ensures
        value_views(final(v)@) == value_views(old(v)@).push(x@),
{
    v.push(x);
    assert(value_views(v@) =~= value_views(old(v)@).push(x@));
}

/// A copy of bound values.
pub fn copy_values(v: &Vec<Value>) -> (r: Vec<Value>)
    ensures
        value_views(r@) == value_views(v@),
{
    let mut out: Vec<Value> = Vec::new();
    let mut i: usize = 0;
    while i < v.len()
        invariant
            i <= v@.len(),
            out@.len() == i,
            forall|k: int| 0 <= k < i ==> (#[trigger] out@[k])@ == v@[k]@,
        decreases v@.len() - i,
    {
        let x = match &v[i] {
            Value::Null => Value::Null,
            Value::Integer(n) => Value::Integer(*n),
            Value::Real(b) => Value::Real(*b),
            Value::Text(s) => Value::Text(s.clone()),
            Value::Blob(b) => {
                let c = b.clone();
                assert(c@ =~= b@);
                Value::Blob(c)
            },
        };
        out.push(x);
        i = i + 1;
    }
    assert(value_views(out@) =~= value_views(v@));
    out
}

impl Statement {
    /// The same statement once more.
    pub fn duplicate(&self) -> (r: Statement)
        ensures
            r@ == self@,
    {
        Statement {
            sql: self.sql.clone(),
            params: copy_values(&self.params),
            mode: self.mode,
        }
    }
}

/// One parameter.
pub fn params1(a: Value) -> (r: Vec<Value>)
    ensures
        value_views(r@) == seq![a@],
{
    let mut v: Vec<Value> = Vec::new();
    assert(value_views(v@) =~= Seq::empty());
    push_value(&mut v, a);
    v
}

/// Two parameters.
pub fn params2(a: Value, b: Value) -> (r: Vec<Value>)
    ensures
        value_views(r@) == seq![a@, b@],
{
    let mut v = params1(a);
    push_value(&mut v, b);
    v
}

/// Three parameters.
pub fn params3(a: Value, b: Value, c: Value) -> (r: Vec<Value>)
    ensures
        value_views(r@) == seq![a@, b@, c@],
{
    let mut v = params2(a, b);
    push_value(&mut v, c);
    v
}

/// Four parameters.
pub fn params4(a: Value, b: Value, c: Value, d: Value) -> (r: Vec<Value>)
    ensures
        value_views(r@) == seq![a@, b@, c@, d@],
{
    let mut v = params3(a, b, c);
    push_value(&mut v, d);
    v
}

/// Five parameters.
pub fn params5(a: Value, b: Value, c: Value, d: Value, e: Value) -> (r: Vec<Value>)
    ensures
        value_views(r@) == seq![a@, b@, c@, d@, e@],
{
    let mut v = params4(a, b, c, d);
    push_value(&mut v, e);
    v
}

// ---- Replies ---------------------------------------------------------------

/// What the engine answers to a statement.
#[derive(Debug)]
pub enum Reply {
    Done,
    Changed { rows: u64, last_rowid: i64 },
    Rows(Vec<Vec<Value>>),
    Failed(SqlFailure),
}

pub enum ReplyView {
    Done,
    Changed { rows: u64, last_rowid: i64 },
    Rows(Seq<Seq<ValueView>>),
    Failed { unique: bool },
}

pub open spec fn rows_view(rows: Seq<Vec<Value>>) -> Seq<Seq<ValueView>> {
    Seq::new(rows.len(), |i: int| value_views(rows[i]@))
}

impl View for Reply {
    type V = ReplyView;

    open spec fn view(&self) -> ReplyView {
        match *self {
            Reply::Done => ReplyView::Done,
            Reply::Changed { rows, last_rowid } => ReplyView::Changed { rows, last_rowid },
            Reply::Rows(rows) => ReplyView::Rows(rows_view(rows@)),
            Reply::Failed(f) => ReplyView::Failed { unique: f.unique },
        }
    }
}

/// The engine refused the statement.
pub open spec fn failed(r: ReplyView) -> bool {
    r is Failed
}

/// The error for a reply that cannot be used.
pub open spec fn reply_error(r: ReplyView) -> ErrorView {
    match r {
        ReplyView::Failed { unique } => sql_error(unique),
        _ => internal_error(),
    }
}

/// How many rows changed.
pub open spec fn changed_rows(r: ReplyView) -> u64 {
    match r {
        ReplyView::Changed { rows, .. } => rows,
        _ => 0,
    }
}

/// The key of the row that was last inserted.
pub open spec fn last_rowid(r: ReplyView) -> i64 {
    match r {
        ReplyView::Changed { last_rowid, .. } => last_rowid,
        _ => 0,
    }
}

/// The rows that came back.
pub open spec fn reply_rows(r: ReplyView) -> Seq<Seq<ValueView>> {
    match r {
        ReplyView::Rows(rows) => rows,
        _ => Seq::empty(),
    }
}

/// The integer in the first cell of the first row.
pub open spec fn scalar_int(r: ReplyView) -> Option<i64> {
    let rows = reply_rows(r);
    if rows.len() > 0 && rows[0].len() > 0 {
        match rows[0][0] {
            ValueView::Integer(i) => Some(i),
            _ => None,
        }
    } else {
        None
    }
}

/// The integer in the first cell of the first row, or its absence.
pub open spec fn scalar_optional_int(r: ReplyView) -> Option<Option<i64>> {
    let rows = reply_rows(r);
    if rows.len() > 0 && rows[0].len() > 0 {
        match rows[0][0] {
            ValueView::Integer(i) => Some(Some(i)),
            ValueView::Null => Some(None),
            _ => None,
        }
    } else {
        None
    }
}

impl Reply {
    pub fn is_failed(&self) -> (r: bool)
        ensures
            r == failed(self@),
    {
        matches!(self, Reply::Failed(_))
    }

    /// The error for a reply that cannot be used.
    pub fn error(&self) -> (r: ApiError)
        ensures
            r@ == reply_error(self@),
    {
        match self {
            Reply::Failed(f) => map_sqlite_err(f),
            _ => ApiError::internal(),
        }
    }

    pub fn changed_rows(&self) -> (r: u64)
        ensures
            r == changed_rows(self@),
    {
        match self {
            Reply::Changed { rows, .. } => *rows,
            _ => 0,
        }
    }

    pub fn last_rowid(&self) -> (r: i64)
        ensures
            r == last_rowid(self@),
    {
        match self {
            Reply::Changed { last_rowid, .. } => *last_rowid,
            _ => 0,
        }
    }

    /// The rows that came back.
    pub fn rows(&self) -> (r: Option<&Vec<Vec<Value>>>)
        ensures
            match r {
                Some(rows) => reply_rows(self@) == rows_view(rows@),
                None => reply_rows(self@).len() == 0,
            },
    {
        match self {
            Reply::Rows(rows) => Some(rows),
            _ => None,
        }
    }

    /// The first cell of the first row.
    pub fn scalar(&self) -> (r: Option<&Value>)
        ensures
            match r {
                Some(v) => reply_rows(self@).len() > 0 && reply_rows(self@)[0].len() > 0
                    && reply_rows(self@)[0][0] == v@,
                None => reply_rows(self@).len() == 0 || reply_rows(self@)[0].len() == 0,
            },
    {
        match self {
            Reply::Rows(rows) => {
                if rows.len() > 0 && rows[0].len() > 0 {
                    Some(&rows[0][0])
                } else {
                    None
                }
            },
            _ => None,
        }
    }

    /// The integer in the first cell of the first row.
    pub fn scalar_int(&self) -> (r: Option<i64>)
        ensures
            r == scalar_int(self@),
    {
        match self.scalar() {
            Some(Value::Integer(i)) => Some(*i),
            _ => None,
        }
    }

    /// The integer in the first cell of the first row, or its absence.
    pub fn scalar_optional_int(&self) -> (r: Option<Option<i64>>)
        ensures
            r == scalar_optional_int(self@),
    {
        match self.scalar() {
            Some(Value::Integer(i)) => Some(Some(*i)),
            Some(Value::Null) => Some(None),
            _ => None,
        }
    }
}

// ---- Cells -----------------------------------------------------------------

/// The cell at `i`, as text.
pub open spec fn cell_text(row: Seq<ValueView>, i: int) -> Option<Seq<char>> {
    if 0 <= i < row.len() {
        match row[i] {
            ValueView::Text(s) => Some(s),
            _ => None,
        }
    } else {
        None
    }
}

/// The cell at `i`, as an integer.
pub open spec fn cell_int(row: Seq<ValueView>, i: int) -> Option<i64> {
    if 0 <= i < row.len() {
        match row[i] {
            ValueView::Integer(n) => Some(n),
            _ => None,
        }
    } else {
        None
    }
}

/// The cell at `i`, as text that may be absent.
pub open spec fn cell_optional_text(row: Seq<ValueView>, i: int) -> Option<Option<Seq<char>>> {
    if 0 <= i < row.len() {
        match row[i] {
            ValueView::Text(s) => Some(Some(s)),
            ValueView::Null => Some(None),
            _ => None,
        }
    } else {
        None
    }
}

/// The view of an optional text.
pub open spec fn text_view(s: Option<String>) -> Option<Seq<char>> {
    match s {
        Some(t) => Some(t@),
        None => None,
    }
}

pub fn get_text(row: &Vec<Value>, i: usize) -> (r: Option<String>)
    ensures
        text_view(r) == cell_text(value_views(row@), i as int),
{
    if i < row.len() {
        match &row[i] {
            Value::Text(s) => Some(s.clone()),
            _ => None,
        }
    } else {
        None
    }
}

pub fn get_int(row: &Vec<Value>, i: usize) -> (r: Option<i64>)
    ensures
        r == cell_int(value_views(row@), i as int),
{
    if i < row.len() {
        match &row[i] {
            Value::Integer(n) => Some(*n),
            _ => None,
        }
    } else {
        None
    }
}

pub fn get_optional_text(row: &Vec<Value>, i: usize) -> (r: Option<Option<String>>)
    ensures
        match r {
            Some(s) => cell_optional_text(value_views(row@), i as int) == Some(text_view(s)),
            None => cell_optional_text(value_views(row@), i as int) is None,
        },
{
    if i < row.len() {
        match &row[i] {
            Value::Text(s) => Some(Some(s.clone())),
            Value::Null => Some(None),
            _ => None,
        }
    } else {
        None
    }
}

// ---- Numbers between the two worlds ----------------------------------------

/// `m` times two to the power of `e`, rounded toward zero.
pub open spec fn scaled(m: nat, e: int) -> nat
    decreases
            if e < 0 {
                -e
            } else {
                e
            },
{
    if e == 0 {
        m
    } else if e > 0 {
        2 * scaled(m, e - 1)
    } else {
        scaled(m / 2, e + 1)
    }
}

/// The integer part of the double with these bits, brought into the range of
/// `i64`; what is no number counts as zero.
pub open spec fn real_to_int(bits: u64) -> i64 {
    let negative = bits >= 0x8000_0000_0000_0000;
    let exponent = (bits / 0x10_0000_0000_0000) % 0x800;
    let fraction = bits % 0x10_0000_0000_0000;
    if exponent == 0x7ff && fraction != 0 {
        0
    } else if exponent < 1023 {
        0
    } else if exponent >= 1086 {
        if negative {
            i64::MIN
        } else {
            i64::MAX
        }
    } else {
        let magnitude = scaled((0x10_0000_0000_0000 + fraction) as nat, exponent - 1075);
        if negative {
            (-magnitude) as i64
        } else {
            magnitude as i64
        }
    }
}

/// Multiplies by a small power of two.
fn scale_up(m: u64, k: u64) -> (r: u64)
    requires
        m < 0x20_0000_0000_0000,
        k <= 10,
    ensures
        r == scaled(m as nat, k as int),
        r < 0x8000_0000_0000_0000,
{
    let mut r: u64 = m;
    let mut i: u64 = 0;
    let ghost mut bound: int = 0x20_0000_0000_0000;
    while i < k
        invariant
            i <= k <= 10,
            r == scaled(m as nat, i as int),
            r < bound,
            i == 0 ==> bound == 0x20_0000_0000_0000,
            i == 1 ==> bound == 0x40_0000_0000_0000,
            i == 2 ==> bound == 0x80_0000_0000_0000,
            i == 3 ==> bound == 0x100_0000_0000_0000,
            i == 4 ==> bound == 0x200_0000_0000_0000,
            i == 5 ==> bound == 0x400_0000_0000_0000,
            i == 6 ==> bound == 0x800_0000_0000_0000,
            i == 7 ==> bound == 0x1000_0000_0000_0000,
            i == 8 ==> bound == 0x2000_0000_0000_0000,
            i == 9 ==> bound == 0x4000_0000_0000_0000,
            i == 10 ==> bound == 0x8000_0000_0000_0000,
        decreases k - i,
    {
        r = 2 * r;
        i = i + 1;
        proof {
            bound = 2 * bound;
        }
    }
    r
}

/// Divides by a power of two.
fn scale_down(m: u64, k: u64) -> (r: u64)
    ensures
        r == scaled(m as nat, -(k as int)),
        r <= m,
{
    let mut r: u64 = m;
    let mut i: u64 = k;
    while i > 0
        invariant
            i <= k,
            r <= m,
            scaled(r as nat, -(i as int)) == scaled(m as nat, -(k as int)),
        decreases i,
    {
        r = r / 2;
        i = i - 1;
    }
    r
}

/// The integer part of the double with these bits.
pub fn real_as_int(bits: u64) -> (r: i64)
    ensures
        r == real_to_int(bits),
{
    let negative = bits >= 0x8000_0000_0000_0000;
    let exponent: u64 = (bits / 0x10_0000_0000_0000) % 0x800;
    let fraction: u64 = bits % 0x10_0000_0000_0000;
    if exponent == 0x7ff && fraction != 0 {
        return 0;
    }
    if exponent < 1023 {
        return 0;
    }
    if exponent >= 1086 {
        return if negative {
            i64::MIN
        } else {
            i64::MAX
        };
    }
    let mantissa: u64 = 0x10_0000_0000_0000 + fraction;
    let magnitude: u64 = if exponent >= 1075 {
        scale_up(mantissa, exponent - 1075)
    } else {
        scale_down(mantissa, 1075 - exponent)
    };
    if negative {
        -(magnitude as i64)
    } else {
        magnitude as i64
    }
}

/// The bits of the double nearest to `n`, ties to even, for `n` of at least two
/// to the power of 63.
pub open spec fn large_to_real(n: u64) -> u64 {
    let unit = n / 2048;
    let rest = n % 2048;
    let rounded = if rest > 1024 || (rest == 1024 && unit % 2 == 1) {
        unit + 1
    } else {
        unit as int
    };
    (1086 * 0x10_0000_0000_0000 + (rounded - 0x10_0000_0000_0000)) as u64
}

/// The bits of the double nearest to `n`.
pub fn large_as_real(n: u64) -> (r: u64)
    requires
        n >= 0x8000_0000_0000_0000,
    ensures
        r == large_to_real(n),
{
    let unit: u64 = n / 2048;
    let rest: u64 = n % 2048;
    let rounded: u64 = if rest > 1024 || (rest == 1024 && unit % 2 == 1) {
        unit + 1
    } else {
        unit
    };
    1086 * 0x10_0000_0000_0000 + (rounded - 0x10_0000_0000_0000)
}

/// An integer setting, from whichever type of cell the engine gave it in.
pub open spec fn pragma_int(v: ValueView) -> i64 {
    match v {
        ValueView::Integer(i) => i,
        ValueView::Real(b) => real_to_int(b),
        ValueView::Text(s) => match parsed_signed(trimmed(s)) {
            Some(n) => n as i64,
            None => 0,
        },
        _ => 0,
    }
}

/// The integer setting that a reply holds, if it holds a row.
pub open spec fn pragma_reply(r: ReplyView) -> Option<i64> {
    let rows = reply_rows(r);
    if rows.len() > 0 && rows[0].len() > 0 {
        Some(pragma_int(rows[0][0]))
    } else {
        None
    }
}

/// Reads an integer setting. Some engines report a setting as text.
pub fn pragma_i64(reply: &Reply) -> (r: Option<i64>)
    ensures
        r == pragma_reply(reply@),
{
    match reply.scalar() {
        Some(v) => Some(
            match v {
                Value::Integer(i) => *i,
                Value::Real(b) => real_as_int(*b),
                Value::Text(s) => {
                    let t = trim_text(s.as_str());
                    match parse_signed(t.as_str()) {
                        Some(n) => n,
                        None => 0,
                    }
                },
                _ => 0,
            },
        ),
        None => None,
    }
}

} // verus!
