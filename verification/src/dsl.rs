//! The operator methods, one trait for each SQL type that can stand on the
//! left of an operator.
//!
//! Every method renders its left operand, the text of one fixed operator and
//! its right operand. Which operands an operator takes is settled by the
//! types, so an ill-typed call does not compile.

use crate::expression::{infix_sql, Expr, Operator};
use crate::sql_types::{Array, Bool, Lquery, Ltree, Ltxtquery};
use vstd::prelude::*;

verus! {

/// Operators with a path on the left.
pub trait LtreeExtensions: View<V = Seq<char>> + Sized {
    /// `self @> other`: is `self` an ancestor of `other`, or equal to it?
    fn contains(self, other: Expr<Ltree>) -> (r: Expr<Bool>)
        ensures
            r@ == infix_sql(self@, Operator::Contains, other@),
    ;

    /// `self @> other`, for an array of paths on the right.
    fn contains_any(self, other: Expr<Array<Ltree>>) -> (r: Expr<Bool>)
        ensures
            r@ == infix_sql(self@, Operator::Contains, other@),
    ;

    /// `self <@ other`: is `self` a descendant of `other`, or equal to it?
    fn contained_by(self, other: Expr<Ltree>) -> (r: Expr<Bool>)
        ensures
            r@ == infix_sql(self@, Operator::ContainedBy, other@),
    ;

    /// `self <@ other`, for an array of paths on the right.
    fn contained_by_any(self, other: Expr<Array<Ltree>>) -> (r: Expr<Bool>)
        ensures
            r@ == infix_sql(self@, Operator::ContainedBy, other@),
    ;

    /// `self ~ other`: does the path match the pattern?
    fn matches(self, other: Expr<Lquery>) -> (r: Expr<Bool>)
        ensures
            r@ == infix_sql(self@, Operator::Matches, other@),
    ;

    /// `self ? other`: does the path match any pattern of the array?
    fn matches_any(self, other: Expr<Array<Lquery>>) -> (r: Expr<Bool>)
        ensures
            r@ == infix_sql(self@, Operator::MatchesAny, other@),
    ;

    /// `self @ other`: does the path match the full-text pattern?
    fn tmatches(self, other: Expr<Ltxtquery>) -> (r: Expr<Bool>)
        ensures
            r@ == infix_sql(self@, Operator::TMatches, other@),
    ;

    /// `self || other`: the two paths joined.
    fn concat(self, other: Expr<Ltree>) -> (r: Expr<Ltree>)
        ensures
            r@ == infix_sql(self@, Operator::Concat, other@),
    ;
}

/// Operators with an array of paths on the left.
pub trait LtreeArrayExtensions: View<V = Seq<char>> + Sized {
    /// `self @> other`: does the array hold an ancestor of `other`?
    fn any_contains(self, other: Expr<Ltree>) -> (r: Expr<Bool>)
        ensures
            r@ == infix_sql(self@, Operator::Contains, other@),
    ;

    /// `self <@ other`: does the array hold a descendant of `other`?
    fn any_contained_by(self, other: Expr<Ltree>) -> (r: Expr<Bool>)
        ensures
            r@ == infix_sql(self@, Operator::ContainedBy, other@),
    ;

    /// `self ~ other`: does the array hold a path that matches the pattern?
    fn any_matches(self, other: Expr<Lquery>) -> (r: Expr<Bool>)
        ensures
            r@ == infix_sql(self@, Operator::Matches, other@),
    ;

    /// `self ? other`: does the array hold a path that matches any pattern
    /// of the other array?
    fn any_matches_any(self, other: Expr<Array<Lquery>>) -> (r: Expr<Bool>)
        ensures
            r@ == infix_sql(self@, Operator::MatchesAny, other@),
    ;

    /// `self @ other`: does the array hold a path that matches the full-text
    /// pattern?
    fn any_tmatches(self, other: Expr<Ltxtquery>) -> (r: Expr<Bool>)
        ensures
            r@ == infix_sql(self@, Operator::TMatches, other@),
    ;

    /// `self ?@> other`: the first path of the array that is an ancestor of
    /// `other`.
    fn first_contains(self, other: Expr<Ltree>) -> (r: Expr<Ltree>)
        ensures
            r@ == infix_sql(self@, Operator::FirstContains, other@),
    ;

    /// `self ?<@ other`: the first path of the array that is a descendant of
    /// `other`.
    fn first_contained_by(self, other: Expr<Ltree>) -> (r: Expr<Ltree>)
        ensures
            r@ == infix_sql(self@, Operator::FirstContainedBy, other@),
    ;

    /// `self ?~ other`: the first path of the array that matches the
    /// pattern.
    fn first_matches(self, other: Expr<Lquery>) -> (r: Expr<Ltree>)
        ensures
            r@ == infix_sql(self@, Operator::FirstMatches, other@),
    ;

    /// `self ?@ other`: the first path of the array that matches the
    /// full-text pattern.
    fn first_tmatches(self, other: Expr<Ltxtquery>) -> (r: Expr<Ltree>)
        ensures
            r@ == infix_sql(self@, Operator::FirstTMatches, other@),
    ;
}

/// Operators with a pattern on the left.
pub trait LqueryExtensions: View<V = Seq<char>> + Sized {
    /// `self ~ other`: does the path match the pattern?
    fn matches(self, other: Expr<Ltree>) -> (r: Expr<Bool>)
        ensures
            r@ == infix_sql(self@, Operator::Matches, other@),
    ;

    /// `self ~ other`: does the array hold a path that matches the pattern?
    fn matches_any(self, other: Expr<Array<Ltree>>) -> (r: Expr<Bool>)
        ensures
            r@ == infix_sql(self@, Operator::Matches, other@),
    ;
}

/// Operators with an array of patterns on the left.
pub trait LqueryArrayExtensions: View<V = Seq<char>> + Sized {
    /// `self ? other`: does the path match any pattern of the array?
    fn any_matches(self, other: Expr<Ltree>) -> (r: Expr<Bool>)
        ensures
            r@ == infix_sql(self@, Operator::MatchesAny, other@),
    ;

    /// `self ? other`: does the other array hold a path that matches any
    /// pattern of this one?
    fn any_matches_any(self, other: Expr<Array<Ltree>>) -> (r: Expr<Bool>)
        ensures
            r@ == infix_sql(self@, Operator::MatchesAny, other@),
    ;
}

/// Operators with a full-text pattern on the left.
pub trait LtxtqueryExtensions: View<V = Seq<char>> + Sized {
    /// `self @ other`: does the path match the full-text pattern?
    fn tmatches(self, other: Expr<Ltree>) -> (r: Expr<Bool>)
        ensures
            r@ == infix_sql(self@, Operator::TMatches, other@),
    ;

    /// `self @ other`: does the array hold a path that matches the
    /// full-text pattern?
    fn tmatches_any(self, other: Expr<Array<Ltree>>) -> (r: Expr<Bool>)
        ensures
            r@ == infix_sql(self@, Operator::TMatches, other@),
    ;
}

impl LtreeExtensions for Expr<Ltree> {
    fn contains(self, other: Expr<Ltree>) -> (r: Expr<Bool>) {
        self.infix(Operator::Contains, other)
    }

    fn contains_any(self, other: Expr<Array<Ltree>>) -> (r: Expr<Bool>) {
        self.infix(Operator::Contains, other)
    }

    fn contained_by(self, other: Expr<Ltree>) -> (r: Expr<Bool>) {
        self.infix(Operator::ContainedBy, other)
    }

    fn contained_by_any(self, other: Expr<Array<Ltree>>) -> (r: Expr<Bool>) {
        self.infix(Operator::ContainedBy, other)
    }

    fn matches(self, other: Expr<Lquery>) -> (r: Expr<Bool>) {
        self.infix(Operator::Matches, other)
    }

    fn matches_any(self, other: Expr<Array<Lquery>>) -> (r: Expr<Bool>) {
        self.infix(Operator::MatchesAny, other)
    }

    fn tmatches(self, other: Expr<Ltxtquery>) -> (r: Expr<Bool>) {
        self.infix(Operator::TMatches, other)
    }

    fn concat(self, other: Expr<Ltree>) -> (r: Expr<Ltree>) {
        self.infix(Operator::Concat, other)
    }
}

impl LtreeArrayExtensions for Expr<Array<Ltree>> {
    fn any_contains(self, other: Expr<Ltree>) -> (r: Expr<Bool>) {
        self.infix(Operator::Contains, other)
    }

    fn any_contained_by(self, other: Expr<Ltree>) -> (r: Expr<Bool>) {
        self.infix(Operator::ContainedBy, other)
    }

    fn any_matches(self, other: Expr<Lquery>) -> (r: Expr<Bool>) {
        self.infix(Operator::Matches, other)
    }

    fn any_matches_any(self, other: Expr<Array<Lquery>>) -> (r: Expr<Bool>) {
        self.infix(Operator::MatchesAny, other)
    }

    fn any_tmatches(self, other: Expr<Ltxtquery>) -> (r: Expr<Bool>) {
        self.infix(Operator::TMatches, other)
    }

    fn first_contains(self, other: Expr<Ltree>) -> (r: Expr<Ltree>) {
        self.infix(Operator::FirstContains, other)
    }

    fn first_contained_by(self, other: Expr<Ltree>) -> (r: Expr<Ltree>) {
        self.infix(Operator::FirstContainedBy, other)
    }

    fn first_matches(self, other: Expr<Lquery>) -> (r: Expr<Ltree>) {
        self.infix(Operator::FirstMatches, other)
    }

    fn first_tmatches(self, other: Expr<Ltxtquery>) -> (r: Expr<Ltree>) {
        self.infix(Operator::FirstTMatches, other)
    }
}

impl LqueryExtensions for Expr<Lquery> {
    fn matches(self, other: Expr<Ltree>) -> (r: Expr<Bool>) {
        self.infix(Operator::Matches, other)
    }

    fn matches_any(self, other: Expr<Array<Ltree>>) -> (r: Expr<Bool>) {
        self.infix(Operator::Matches, other)
    }
}

impl LqueryArrayExtensions for Expr<Array<Lquery>> {
    fn any_matches(self, other: Expr<Ltree>) -> (r: Expr<Bool>) {
        self.infix(Operator::MatchesAny, other)
    }

    fn any_matches_any(self, other: Expr<Array<Ltree>>) -> (r: Expr<Bool>) {
        self.infix(Operator::MatchesAny, other)
    }
}

impl LtxtqueryExtensions for Expr<Ltxtquery> {
    fn tmatches(self, other: Expr<Ltree>) -> (r: Expr<Bool>) {
        self.infix(Operator::TMatches, other)
    }

    fn tmatches_any(self, other: Expr<Array<Ltree>>) -> (r: Expr<Bool>) {
        self.infix(Operator::TMatches, other)
    }
}

} // verus!
