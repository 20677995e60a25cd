//! Database statements: the text and the values bound to its placeholders.
use crate::clock::LocalTime;
use vstd::prelude::*;
use vstd::string::*;

verus! {

/// A value bound to a placeholder.
#[derive(Debug)]
pub enum Arg<'a> {
    Int(i32),
    Text(String),
    Bytes(&'a [u8]),
    Time(LocalTime),
}

pub enum ArgView {
    Int(i32),
    Text(Seq<char>),
    Bytes(Seq<u8>),
    Time(LocalTime),
}

impl<'a> DeepView for Arg<'a> {
    type V = ArgView;

    open spec fn deep_view(&self) -> ArgView {
        match self {
            Arg::Int(n) => ArgView::Int(*n),
            Arg::Text(s) => ArgView::Text(s@),
            Arg::Bytes(b) => ArgView::Bytes(b@),
            Arg::Time(t) => ArgView::Time(*t),
        }
    }
}

/// A statement and the values of its placeholders, in order.
#[derive(Debug)]
pub struct Query<'a> {
    pub sql: String,
    pub args: Vec<Arg<'a>>,
}

pub struct QueryView {
    pub sql: Seq<char>,
    pub args: Seq<ArgView>,
}

impl<'a> DeepView for Query<'a> {
    type V = QueryView;

    open spec fn deep_view(&self) -> QueryView {
        QueryView { sql: self.sql@, args: self.args.deep_view() }
    }
}

/// A statement without placeholders.
pub open spec fn plain_query(sql: Seq<char>) -> QueryView {
    QueryView { sql, args: seq![] }
}

/// A statement with one placeholder.
pub open spec fn bound_query(sql: Seq<char>, arg: ArgView) -> QueryView {
    QueryView { sql, args: seq![arg] }
}

impl<'a> Query<'a> {
    /// A statement without placeholders.
    pub fn plain(sql: &str) -> (r: Query<'a>)
        ensures
            r.deep_view() == plain_query(sql@),
    {
        let r = Query { sql: sql.to_owned(), args: Vec::new() };
        assert(r.args.deep_view() =~= seq![]);
        r
    }

    /// The statement with one more value bound.
    pub fn bind(self, arg: Arg<'a>) -> (r: Query<'a>)
        ensures
            r.deep_view() == (QueryView {
                sql: self.deep_view().sql,
                args: self.deep_view().args.push(arg.deep_view()),
            }),
    {
        let mut args = self.args;
        args.push(arg);
        let r = Query { sql: self.sql, args };
        assert(r.args.deep_view() =~= self.deep_view().args.push(arg.deep_view()));
        r
    }

    /// A statement with one placeholder.
    pub fn bound(sql: &str, arg: Arg<'a>) -> (r: Query<'a>)
        ensures
            r.deep_view() == bound_query(sql@, arg.deep_view()),
    {
        let r = Query::plain(sql).bind(arg);
        assert(r.deep_view().args =~= seq![arg.deep_view()]);
        r
    }
}

// ---------- laws ----------

/// A statement is its whole text and the values of its placeholders in order, each whole.
pub proof fn law_query_view(q: Query, i: int)
    ensures
        q.deep_view().sql == q.sql@,
        q.deep_view().args.len() == q.args@.len(),
        0 <= i < q.args@.len() ==> q.deep_view().args[i] == q.args@[i].deep_view(),
{
}

/// A bound value is known whole, and by its kind.
pub proof fn law_arg_view(n: i32, s: String, b: &[u8], t: LocalTime)
    ensures
        Arg::Int(n).deep_view() == ArgView::Int(n),
        Arg::Text(s).deep_view() == ArgView::Text(s@),
        Arg::Bytes(b).deep_view() == ArgView::Bytes(b@),
        Arg::Time(t).deep_view() == ArgView::Time(t),
{
}

/// A statement with one placeholder has its text and that one value; one without has none.
pub proof fn law_bound_query(sql: Seq<char>, arg: ArgView)
    ensures
        bound_query(sql, arg).sql == sql,
        bound_query(sql, arg).args.len() == 1,
        bound_query(sql, arg).args[0] == arg,
        plain_query(sql).sql == sql,
        plain_query(sql).args.len() == 0,
{
}

} // verus!
