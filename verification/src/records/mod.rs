//! Worked records: hand-laid expansions showing exactly the surface the
//! code generator describes — per-field error types with one optional
//! slot per invocation, failure enumerations, the aggregate record error,
//! a `validate` that visits every field and collects every failure, and
//! delegating fields handing validation to their value's own `validate`.

pub mod basic;
pub mod length;
pub mod nesting;
pub mod rules;
pub mod users;
pub mod wrap;
