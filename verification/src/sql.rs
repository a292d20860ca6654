//! SQL queries built at run time with sqlx's `QueryBuilder` for Postgres: the
//! text of the query, in which every value stands as a numbered placeholder,
//! and the values bound to those placeholders.

use vstd::prelude::*;

verus! {

/// A query under construction, held in a sqlx `QueryBuilder` for Postgres.
/// `query_text` names its SQL text and `query_args` the values bound to it,
/// in order. The library only pushes to the builder and never builds it;
/// the caller builds it once it is complete, and pushes nothing after that.
#[verifier::external_body]
pub struct SqlQuery {
    pub builder: sqlx::QueryBuilder<'static, sqlx::Postgres>,
}

/// A value bound to a placeholder of a query.
pub enum SqlArg {
    Text(Seq<char>),
    Int(int),
}

/// The SQL text that the builder holds.
pub uninterp spec fn query_text(q: SqlQuery) -> Seq<char>;

/// The values bound so far, the first bound first.
pub uninterp spec fn query_args(q: SqlQuery) -> Seq<SqlArg>;

/// The character of a decimal digit.
pub open spec fn digit_char(d: nat) -> char {
    (48 + d) as char
}

/// The decimal notation of `n`, without leading zeros.
pub open spec fn decimal(n: nat) -> Seq<char>
    decreases n,
{
    if n < 10 {
        seq![digit_char(n)]
    } else {
        decimal(n / 10).push(digit_char(n % 10))
    }
}

/// The Postgres placeholder of the `n`-th bound value (counted from 1): `$n`.
pub open spec fn placeholder(n: nat) -> Seq<char> {
    seq!['$'] + decimal(n)
}

impl SqlQuery {
    /// `QueryBuilder::new`: a builder whose text is `init` and that has no
    /// bound value yet.
    #[verifier::external_body]
    pub(crate) fn new(init: &str) -> (q: SqlQuery)
        ensures
            query_text(q) == init@,
            query_args(q) == Seq::<SqlArg>::empty(),
    {
        SqlQuery { builder: sqlx::QueryBuilder::new(init) }
    }

    /// `QueryBuilder::push`: appends `sql` to the text; the bound values stay.
    #[verifier::external_body]
    pub(crate) fn push(&mut self, sql: &str)
        ensures
            query_text(*final(self)) == query_text(*old(self)) + sql@,
            query_args(*final(self)) == query_args(*old(self)),
    {
        self.builder.push(sql);
    }

    /// `QueryBuilder::push_bind` with a text value: binds the value as the
    /// next argument and appends its placeholder `$n`, `n` being the number
    /// of values bound with it.
    #[verifier::external_body]
    pub(crate) fn push_bind_text(&mut self, value: String)
        requires
            query_args(*old(self)).len() < usize::MAX,
        ensures
            query_args(*final(self)) == query_args(*old(self)).push(SqlArg::Text(value@)),
            query_text(*final(self)) == query_text(*old(self)) + placeholder(
                query_args(*final(self)).len(),
            ),
    {
        self.builder.push_bind(value);
    }

    /// `QueryBuilder::push_bind` with an integer value: binds the value as the
    /// next argument and appends its placeholder `$n`, `n` being the number
    /// of values bound with it.
    #[verifier::external_body]
    pub(crate) fn push_bind_int(&mut self, value: i32)
        requires
            query_args(*old(self)).len() < usize::MAX,
        ensures
            query_args(*final(self)) == query_args(*old(self)).push(SqlArg::Int(value as int)),
            query_text(*final(self)) == query_text(*old(self)) + placeholder(
                query_args(*final(self)).len(),
            ),
    {
        self.builder.push_bind(value);
    }
}

} // verus!
