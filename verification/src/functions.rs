//! The SQL functions of the `ltree` extension, each with the types of its
//! arguments and of its result.
//!
//! What a function computes is PostgreSQL's business; here a call is
//! rendered and typed.

use crate::expression::{call_sql, Expr};
use crate::sql_types::{Array, Int4, Lquery, Ltree, Ltxtquery, Text};
use vstd::prelude::*;

verus! {

/// `subltree(ltree, start, end)`: the part of the path from position
/// `start` up to position `end`.
pub fn subltree(ltree: Expr<Ltree>, start: Expr<Int4>, end: Expr<Int4>) -> (r: Expr<Ltree>)
    ensures
        r@ == call_sql("subltree"@, seq![ltree@, start@, end@]),
{
    let ghost args = seq![ltree@, start@, end@];
    let mut texts: Vec<String> = Vec::new();
    texts.push(ltree.into_sql());
    texts.push(start.into_sql());
    texts.push(end.into_sql());
    assert(texts.deep_view() =~= args);
    Expr::call("subltree", texts)
}

/// `subpath(ltree, offset, len)`: the part of the path that starts at
/// `offset` and has `len` labels.
pub fn subpath(ltree: Expr<Ltree>, offset: Expr<Int4>, len: Expr<Int4>) -> (r: Expr<Ltree>)
    ensures
        r@ == call_sql("subpath"@, seq![ltree@, offset@, len@]),
{
    let ghost args = seq![ltree@, offset@, len@];
    let mut texts: Vec<String> = Vec::new();
    texts.push(ltree.into_sql());
    texts.push(offset.into_sql());
    texts.push(len.into_sql());
    assert(texts.deep_view() =~= args);
    Expr::call("subpath", texts)
}

/// `nlevel(ltree)`: the number of labels in the path.
pub fn nlevel(ltree: Expr<Ltree>) -> (r: Expr<Int4>)
    ensures
        r@ == call_sql("nlevel"@, seq![ltree@]),
{
    Expr::call("nlevel", one(ltree))
}

/// `index(a, b, offset)`: the position of the first occurrence of `b` in
/// `a` at or after `offset`.
pub fn index(a: Expr<Ltree>, b: Expr<Ltree>, offset: Expr<Int4>) -> (r: Expr<Int4>)
    ensures
        r@ == call_sql("index"@, seq![a@, b@, offset@]),
{
    let ghost args = seq![a@, b@, offset@];
    let mut texts: Vec<String> = Vec::new();
    texts.push(a.into_sql());
    texts.push(b.into_sql());
    texts.push(offset.into_sql());
    assert(texts.deep_view() =~= args);
    Expr::call("index", texts)
}

/// `text2ltree(text)`: the text taken as a path.
pub fn text2ltree(text: Expr<Text>) -> (r: Expr<Ltree>)
    ensures
        r@ == call_sql("text2ltree"@, seq![text@]),
{
    Expr::call("text2ltree", one(text))
}

/// `ltree2text(ltree)`: the path taken as text.
pub fn ltree2text(ltree: Expr<Ltree>) -> (r: Expr<Text>)
    ensures
        r@ == call_sql("ltree2text"@, seq![ltree@]),
{
    Expr::call("ltree2text", one(ltree))
}

/// `lca(ltrees)`: the longest common ancestor of the paths in the array.
pub fn lca(ltrees: Expr<Array<Ltree>>) -> (r: Expr<Ltree>)
    ensures
        r@ == call_sql("lca"@, seq![ltrees@]),
{
    Expr::call("lca", one(ltrees))
}

/// `lquery(x)`: the text taken as a pattern.
pub fn lquery(x: Expr<Text>) -> (r: Expr<Lquery>)
    ensures
        r@ == call_sql("lquery"@, seq![x@]),
{
    Expr::call("lquery", one(x))
}

/// `ltxtquery(x)`: the text taken as a full-text pattern.
pub fn ltxtquery(x: Expr<Text>) -> (r: Expr<Ltxtquery>)
    ensures
        r@ == call_sql("ltxtquery"@, seq![x@]),
{
    Expr::call("ltxtquery", one(x))
}

/// The argument list of a call with one argument.
fn one<ST>(arg: Expr<ST>) -> (texts: Vec<String>)
    ensures
        texts.deep_view() == seq![arg@],
{
    let ghost args = seq![arg@];
    let mut texts: Vec<String> = Vec::new();
    texts.push(arg.into_sql());
    assert(texts.deep_view() =~= args);
    texts
}

} // verus!
