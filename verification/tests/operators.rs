use diesel_ltree::expression::{Expr, Operator};
use diesel_ltree::sql_types::{Array, Bool, Lquery, Ltree, Ltxtquery};
use diesel_ltree::{
    LqueryArrayExtensions, LqueryExtensions, LtreeArrayExtensions, LtreeExtensions,
    LtxtqueryExtensions,
};

fn ltree(sql: &str) -> Expr<Ltree> {
    Expr::new(sql.to_string())
}

fn ltrees(sql: &str) -> Expr<Array<Ltree>> {
    Expr::new(sql.to_string())
}

fn lquery(sql: &str) -> Expr<Lquery> {
    Expr::new(sql.to_string())
}

fn lqueries(sql: &str) -> Expr<Array<Lquery>> {
    Expr::new(sql.to_string())
}

fn ltxtquery(sql: &str) -> Expr<Ltxtquery> {
    Expr::new(sql.to_string())
}

#[test]
fn an_expression_is_its_text() {
    let e = ltree("\"my_tree\".\"path\"");
    assert_eq!(e.sql(), "\"my_tree\".\"path\"");
    assert_eq!(e.into_sql(), "\"my_tree\".\"path\"".to_string());
}

#[test]
fn operator_tokens() {
    assert_eq!(Operator::Contains.token(), " @> ");
    assert_eq!(Operator::ContainedBy.token(), " <@ ");
    assert_eq!(Operator::Matches.token(), " ~ ");
    assert_eq!(Operator::MatchesAny.token(), " ? ");
    assert_eq!(Operator::TMatches.token(), " @ ");
    assert_eq!(Operator::Concat.token(), " || ");
    assert_eq!(Operator::FirstContains.token(), " ?@> ");
    assert_eq!(Operator::FirstContainedBy.token(), " ?<@ ");
    assert_eq!(Operator::FirstMatches.token(), " ?~ ");
    assert_eq!(Operator::FirstTMatches.token(), " ?@ ");
}

#[test]
fn column_matches_pattern_literal() {
    let rendered: Expr<Bool> = ltree("\"my_tree\".\"path\"").matches(lquery("$1"));
    assert_eq!(rendered.sql(), "\"my_tree\".\"path\" ~ $1");
    let rendered = ltree("path").matches(lquery("'a.*.c'"));
    assert_eq!(rendered.sql(), "path ~ 'a.*.c'");
}

#[test]
fn path_operators() {
    assert_eq!(ltree("p").contains(ltree("q")).sql(), "p @> q");
    assert_eq!(ltree("p").contains_any(ltrees("qs")).sql(), "p @> qs");
    assert_eq!(ltree("p").contained_by(ltree("q")).sql(), "p <@ q");
    assert_eq!(ltree("p").contained_by_any(ltrees("qs")).sql(), "p <@ qs");
    assert_eq!(ltree("p").matches(lquery("q")).sql(), "p ~ q");
    assert_eq!(ltree("p").matches_any(lqueries("qs")).sql(), "p ? qs");
    assert_eq!(ltree("p").tmatches(ltxtquery("t")).sql(), "p @ t");
    let joined: Expr<Ltree> = ltree("p").concat(ltree("q"));
    assert_eq!(joined.sql(), "p || q");
}

#[test]
fn path_array_operators() {
    assert_eq!(ltrees("ps").any_contains(ltree("q")).sql(), "ps @> q");
    assert_eq!(ltrees("ps").any_contained_by(ltree("q")).sql(), "ps <@ q");
    assert_eq!(ltrees("ps").any_matches(lquery("q")).sql(), "ps ~ q");
    assert_eq!(ltrees("ps").any_matches_any(lqueries("qs")).sql(), "ps ? qs");
    assert_eq!(ltrees("ps").any_tmatches(ltxtquery("t")).sql(), "ps @ t");
    let first: Expr<Ltree> = ltrees("ps").first_contains(ltree("q"));
    assert_eq!(first.sql(), "ps ?@> q");
    let first: Expr<Ltree> = ltrees("ps").first_contained_by(ltree("q"));
    assert_eq!(first.sql(), "ps ?<@ q");
    let first: Expr<Ltree> = ltrees("ps").first_matches(lquery("q"));
    assert_eq!(first.sql(), "ps ?~ q");
    let first: Expr<Ltree> = ltrees("ps").first_tmatches(ltxtquery("t"));
    assert_eq!(first.sql(), "ps ?@ t");
}

#[test]
fn pattern_operators() {
    assert_eq!(lquery("q").matches(ltree("p")).sql(), "q ~ p");
    assert_eq!(lquery("q").matches_any(ltrees("ps")).sql(), "q ~ ps");
    assert_eq!(lqueries("qs").any_matches(ltree("p")).sql(), "qs ? p");
    assert_eq!(lqueries("qs").any_matches_any(ltrees("ps")).sql(), "qs ? ps");
}

#[test]
fn full_text_pattern_operators() {
    assert_eq!(ltxtquery("t").tmatches(ltree("p")).sql(), "t @ p");
    assert_eq!(ltxtquery("t").tmatches_any(ltrees("ps")).sql(), "t @ ps");
}

#[test]
fn operands_are_rendered_unchanged() {
    // nothing is trimmed, quoted or bracketed
    assert_eq!(ltree(" p ").contains(ltree("(q)")).sql(), " p  @> (q)");
    assert_eq!(ltree("").contains(ltree("")).sql(), " @> ");
}

#[test]
fn operator_results_are_operands() {
    let joined = ltree("a").concat(ltree("b")).concat(ltree("c"));
    assert_eq!(joined.sql(), "a || b || c");
    let found = ltrees("ps").first_matches(lquery("q")).contained_by(ltree("r"));
    assert_eq!(found.sql(), "ps ?~ q <@ r");
}
