//! Ready-to-use validators for common validation scenarios, grouped by
//! the kind of value they check.

pub mod case;
pub mod collection;
pub mod format;
pub mod general;
pub mod numeric;
pub mod string;
