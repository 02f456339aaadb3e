//! A declarative validation library: field annotations are parsed into a
//! structured model, resolved against the field's declared type, and turned
//! into a generated-code model together with the runtime semantics of the
//! `validate` operation that the model describes.

use vstd::prelude::*;

pub mod ast;
pub mod casing;
pub mod codegen;
pub mod engine;
pub mod field;
pub mod parser;
pub mod records;
pub mod resolve;
pub mod traits;
pub mod validators;

verus! {

/// Result type for a single validation check: `Ok(())` when the check
/// passes, `Err(())` when it fails. The failing validator itself carries
/// the context needed to describe the failure.
pub type KorumaResult = Result<(), ()>;

} // verus!
