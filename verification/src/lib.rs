//! Generation of cross-contract call-stub modules from trait method
//! declarations: a signature analyzer that validates one method's abstract
//! syntax against the supported argument shapes, and an emitter that lays out
//! the generated module's arguments struct, phantom marker and return alias.

pub mod ast;
pub mod code_generator;
pub mod diagnostic;
pub mod info_extractor;
pub mod ordered;
