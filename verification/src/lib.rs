//! Verified support for PostgreSQL `ltree` label paths: the wire codec of a
//! path value, the SQL type tags of the extension, and typed SQL fragments
//! for its operators and functions.

pub mod dsl;
pub mod expression;
pub mod functions;
pub mod sql_types;
pub mod values;

pub use crate::dsl::{
    LqueryArrayExtensions, LqueryExtensions, LtreeArrayExtensions, LtreeExtensions,
    LtxtqueryExtensions,
};
pub use crate::expression::{Expr, Operator};
pub use crate::functions::{
    index, lca, lquery, ltree2text, ltxtquery, nlevel, subltree, subpath, text2ltree,
};
pub use crate::values::{DecodeError, IsNull, Ltree, BINARY_VERSION};
