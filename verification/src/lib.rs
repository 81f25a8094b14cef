//! Synthesis of field accessor methods (read, mutable read, write) for
//! named-field records, driven by a four-layer cascading option configuration.
//!
//! The crate is organised around three engines:
//! - option resolution ([`final_options`]): merges up to four
//!   partially-specified option layers into one fully-populated
//!   [`final_options::FinalOptions`] record per (field, accessor kind) pair,
//!   or decides that the accessor is omitted;
//! - naming composition ([`naming`]): computes each method's name from the
//!   field name, the resolved prefix/suffix slots and the kind's convention;
//! - accessor synthesis ([`synthesis`]): turns a resolved option record plus
//!   field identity and type into an abstract method fragment (receiver mode,
//!   parameter, return type, body shape, bounds).
//!
//! Surface-syntax parsing and token emission are deliberately outside this
//! crate: callers hand in already-structured option records and receive
//! abstract fragments back.

use vstd::prelude::*;

pub mod options;
pub mod naming;
pub mod final_options;
pub mod parsed_field;
pub mod synthesis;
pub mod derive_accessors;

use derive_accessors::{DeriveAccessors, ImplBlock, spec_assemble};

verus! {

/// Entry point of the pipeline: resolves and synthesizes every accessor of
/// every field of the parsed record, yielding the abstract implementation
/// block for the downstream emitter.
pub fn derive_accessors(input: DeriveAccessors) -> (out: ImplBlock)
    ensures
        out@ == spec_assemble(input@),
{
    input.assemble()
}

} // verus!
