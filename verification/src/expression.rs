//! Typed SQL fragments and the two shapes this library renders: an infix
//! operator between two operands, and a function call.

use std::marker::PhantomData;
use vstd::prelude::*;

verus! {

/// A SQL expression of SQL type `ST`, held as its rendered text.
pub struct Expr<ST> {
    sql: String,
    tag: PhantomData<ST>,
}

impl<ST> View for Expr<ST> {
    type V = Seq<char>;

    closed spec fn view(&self) -> Seq<char> {
        self.sql@
    }
}

/// The infix operators of the `ltree` extension.
#[derive(Clone, Copy, Debug, PartialEq, Eq, Structural)]
pub enum Operator {
    Contains,
    ContainedBy,
    Matches,
    MatchesAny,
    TMatches,
    Concat,
    FirstContains,
    FirstContainedBy,
    FirstMatches,
    FirstTMatches,
}

impl Operator {
    /// The text that stands between the two operands: the operator's token
    /// with one space on either side.
    pub open spec fn sql(self) -> Seq<char> {
        match self {
            Operator::Contains => " @> "@,
            Operator::ContainedBy => " <@ "@,
            Operator::Matches => " ~ "@,
            Operator::MatchesAny => " ? "@,
            Operator::TMatches => " @ "@,
            Operator::Concat => " || "@,
            Operator::FirstContains => " ?@> "@,
            Operator::FirstContainedBy => " ?<@ "@,
            Operator::FirstMatches => " ?~ "@,
            Operator::FirstTMatches => " ?@ "@,
        }
    }

    /// The operator's token as PostgreSQL spells it, without the spaces
    /// around it.
    pub open spec fn symbol(self) -> Seq<char> {
        self.sql().subrange(1, self.sql().len() - 1)
    }

    /// The text that stands between the two operands.
    pub fn token(self) -> (r: &'static str)
        ensures
            r@ == self.sql(),
    {
        match self {
            Operator::Contains => " @> ",
            Operator::ContainedBy => " <@ ",
            Operator::Matches => " ~ ",
            Operator::MatchesAny => " ? ",
            Operator::TMatches => " @ ",
            Operator::Concat => " || ",
            Operator::FirstContains => " ?@> ",
            Operator::FirstContainedBy => " ?<@ ",
            Operator::FirstMatches => " ?~ ",
            Operator::FirstTMatches => " ?@ ",
        }
    }
}

/// The text of an operator is one space, the operator's token and one space;
/// the token is not empty and holds no space.
pub proof fn lemma_operator_text(op: Operator)
    ensures
        op.sql() == seq![' '] + op.symbol() + seq![' '],
        op.symbol().len() > 0,
        !op.symbol().contains(' '),
{
    reveal_strlit(" @> ");
    reveal_strlit(" <@ ");
    reveal_strlit(" ~ ");
    reveal_strlit(" ? ");
    reveal_strlit(" @ ");
    reveal_strlit(" || ");
    reveal_strlit(" ?@> ");
    reveal_strlit(" ?<@ ");
    reveal_strlit(" ?~ ");
    reveal_strlit(" ?@ ");
    assert(op.sql() =~= seq![' '] + op.symbol() + seq![' ']);
}

/// The rendering of an infix operator: the left operand, the operator's
/// text, the right operand, and nothing else.
pub open spec fn infix_sql(left: Seq<char>, op: Operator, right: Seq<char>) -> Seq<char> {
    left + op.sql() + right
}

/// The arguments of a call, each followed by a comma and a space but the
/// last.
pub open spec fn join_args(args: Seq<Seq<char>>) -> Seq<char>
    decreases args.len(),
{
    if args.len() == 0 {
        Seq::empty()
    } else if args.len() == 1 {
        args[0]
    } else {
        join_args(args.drop_last()) + ", "@ + args.last()
    }
}

/// The rendering of a function call: the name, and in round brackets the
/// arguments in their order.
pub open spec fn call_sql(name: Seq<char>, args: Seq<Seq<char>>) -> Seq<char> {
    name + "("@ + join_args(args) + ")"@
}

impl<ST> Expr<ST> {
    /// Takes `sql` as an expression of type `ST`, as it stands.
    pub fn new(sql: String) -> (r: Self)
        ensures
            r@ == sql@,
    {
        Expr { sql, tag: PhantomData }
    }

    /// The rendered text.
    pub fn sql(&self) -> (r: &str)
        ensures
            r@ == self@,
    {
        self.sql.as_str()
    }

    /// Gives up the expression for its rendered text.
    pub fn into_sql(self) -> (r: String)
        ensures
            r@ == self@,
    {
        self.sql
    }

    /// Renders `op` between `self` and `right`; the caller names the type of
    /// the result.
    pub(crate) fn infix<Right, Out>(self, op: Operator, right: Expr<Right>) -> (r: Expr<Out>)
        ensures
            r@ == infix_sql(self@, op, right@),
    {
        let mut sql = self.sql;
        sql.append(op.token());
        sql.append(right.sql.as_str());
        Expr { sql, tag: PhantomData }
    }

    /// Renders a call of the SQL function `name` on `args`; the caller names
    /// the type of the result.
    pub(crate) fn call(name: &str, args: Vec<String>) -> (r: Self)
        ensures
            r@ == call_sql(name@, args.deep_view()),
    {
        let mut sql = name.to_owned();
        sql.append("(");
        let ghost texts = args.deep_view();
        let mut i: usize = 0;
        while i < args.len()
            invariant
                i <= args.len(),
                texts == args.deep_view(),
                sql@ == name@ + "("@ + join_args(texts.take(i as int)),
            decreases args.len() - i,
        {
            if i > 0 {
                sql.append(", ");
            }
            sql.append(args[i].as_str());
            proof {
                let seen = texts.take(i + 1);
                assert(seen.drop_last() =~= texts.take(i as int));
                assert(seen.last() == args[i as int]@);
            }
            i += 1;
        }
        sql.append(")");
        proof {
            assert(texts.take(i as int) =~= texts);
        }
        Expr { sql, tag: PhantomData }
    }
}

} // verus!
