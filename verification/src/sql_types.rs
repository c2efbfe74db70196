//! SQL type tags.
//!
//! A tag has no value of interest: it marks a SQL fragment with the type that
//! PostgreSQL will give it, so that only well-typed operator and function
//! calls can be written.

use std::marker::PhantomData;
use vstd::prelude::*;

verus! {

/// The `ltree` type: a label path.
pub struct Ltree;

/// The `lquery` type: a pattern over label paths.
#[derive(Clone, Copy)]
pub struct Lquery;

/// The `ltxtquery` type: a full-text pattern over the labels of a path.
#[derive(Clone, Copy)]
pub struct Ltxtquery;

/// The built-in `boolean` type.
#[derive(Clone, Copy)]
pub struct Bool;

/// The built-in `integer` type.
#[derive(Clone, Copy)]
pub struct Int4;

/// The built-in `text` type.
#[derive(Clone, Copy)]
pub struct Text;

/// The array type over the element type `ST`.
pub struct Array<ST>(pub PhantomData<ST>);

impl Ltree {
    /// The name under which PostgreSQL knows the type.
    pub fn postgres_name() -> (r: &'static str)
        ensures
            r@ == "ltree"@,
    {
        "ltree"
    }
}

impl Lquery {
    /// The name under which PostgreSQL knows the type.
    pub fn postgres_name() -> (r: &'static str)
        ensures
            r@ == "lquery"@,
    {
        "lquery"
    }
}

impl Ltxtquery {
    /// The name under which PostgreSQL knows the type.
    pub fn postgres_name() -> (r: &'static str)
        ensures
            r@ == "ltxtquery"@,
    {
        "ltxtquery"
    }
}

} // verus!
