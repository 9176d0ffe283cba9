//! The runtime-support ABI of a WebAssembly-to-native backend.
//!
//! Generated code reaches operations that have no single machine instruction
//! (rotations, trapping truncations, table and memory access, traps) through
//! a fixed set of external functions. This crate names those functions, fixes
//! their signatures, declares them in a backend module and resolves them
//! again.

pub mod backend;
pub mod error;
pub mod laws;
pub mod lowering;
pub mod names;
pub mod registrar;
pub mod resolver;
pub mod table;
pub mod types;

pub use error::StubError;
pub use lowering::ForeignTypes;
pub use registrar::{check_given_name, insert_runtime_stubs};
pub use resolver::{backend_accepts, get_stub_function, ModuleCtx, StubHandle};
pub use table::{find_stub, signature_table};
pub use types::{PrimType, StubDescriptor, TypeSignature};
