//! A simplified, typed intermediate representation of a borrow-checked
//! systems-language program, together with the rewrite passes that clean a
//! raw control-flow-graph body into a smaller, more uniform form.
//!
//! The crate is organised bottom-up:
//! - [`ids`]: typed integer handles and the append-only arenas they address;
//! - [`types`]: the type and generics model (types, regions, trait
//!   resolution paths, generic parameters and arguments);
//! - [`ullbc`]: the control-flow body model (blocks, statements, operands,
//!   rvalues, terminators);
//! - [`ullbc_utils`]: the generic bottom-up statement rewriting engine;
//! - [`transform`]: the pass pipeline built on top of the engine.

pub mod deps;
pub mod divergent;
pub mod generics;
pub mod get_mir;
pub mod ids;
pub mod meta;
pub mod types;
pub mod types_utils;
pub mod transform;
pub mod ullbc;
pub mod ullbc_utils;
