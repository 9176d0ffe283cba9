//! The symbolic names of the runtime functions.
//!
//! The runtime library exports each function under exactly this name.

use vstd::prelude::*;

verus! {

/// Sets up a linear-memory region: initial pages, maximum pages, backing
/// address.
pub const INITIALIZE_REGION_STUB: &'static str = "region-initializer";

/// Turns a memory index and a byte offset into an address, or traps.
pub const GET_MEMORY_PTR: &'static str = "memory-address-resolver";

/// Stores a function reference at an index of a table.
pub const TABLE_ADD: &'static str = "table-insert";

/// Fetches the function reference at an index of a table, or traps.
pub const TABLE_FETCH: &'static str = "table-lookup";

/// Rotates 32 bits left by the second operand modulo 32.
pub const I32_ROTL: &'static str = "rotate-left-32";

/// Rotates 32 bits right by the second operand modulo 32.
pub const I32_ROTR: &'static str = "rotate-right-32";

/// Rotates 64 bits left by the second operand modulo 64.
pub const I64_ROTL: &'static str = "rotate-left-64";

/// Rotates 64 bits right by the second operand modulo 64.
pub const I64_ROTR: &'static str = "rotate-right-64";

/// Truncates a 32-bit float toward zero to a signed 32-bit integer, or
/// traps.
pub const I32_TRUNC_F32: &'static str = "signed-truncate-to-i32-from-f32";

/// Truncates a 32-bit float toward zero to an unsigned 32-bit integer,
/// or traps.
pub const U32_TRUNC_F32: &'static str = "unsigned-truncate-to-i32-from-f32";

/// Truncates a 64-bit float toward zero to a signed 32-bit integer, or
/// traps.
pub const I32_TRUNC_F64: &'static str = "signed-truncate-to-i32-from-f64";

/// Truncates a 64-bit float toward zero to an unsigned 32-bit integer,
/// or traps.
pub const U32_TRUNC_F64: &'static str = "unsigned-truncate-to-i32-from-f64";

/// Truncates a 32-bit float toward zero to a signed 64-bit integer, or
/// traps.
pub const I64_TRUNC_F32: &'static str = "signed-truncate-to-i64-from-f32";

/// Truncates a 32-bit float toward zero to an unsigned 64-bit integer,
/// or traps.
pub const U64_TRUNC_F32: &'static str = "unsigned-truncate-to-i64-from-f32";

/// Truncates a 64-bit float toward zero to a signed 64-bit integer, or
/// traps.
pub const I64_TRUNC_F64: &'static str = "signed-truncate-to-i64-from-f64";

/// Truncates a 64-bit float toward zero to an unsigned 64-bit integer,
/// or traps.
pub const U64_TRUNC_F64: &'static str = "unsigned-truncate-to-i64-from-f64";

/// Rounds a 32-bit float toward zero; the result stays a float.
pub const F32_TRUNC_F32: &'static str = "identity-round-f32";

/// Rounds a 64-bit float toward zero; the result stays a float.
pub const F64_TRUNC_F64: &'static str = "identity-round-f64";

/// Counts the leading zero bits of 32; the flag says whether the count
/// of an all-zero input is left undefined.
pub const I32_CLZ: &'static str = "count-leading-zeros-32";

/// Counts the leading zero bits of 64; the flag says whether the count
/// of an all-zero input is left undefined.
pub const I64_CLZ: &'static str = "count-leading-zeros-64";

/// Counts the trailing zero bits of 32; the flag says whether the count
/// of an all-zero input is left undefined.
pub const I32_CTZ: &'static str = "count-trailing-zeros-32";

/// Counts the trailing zero bits of 64; the flag says whether the count
/// of an all-zero input is left undefined.
pub const I64_CTZ: &'static str = "count-trailing-zeros-64";

/// Counts the one bits of 32.
pub const I32_CTPOP: &'static str = "population-count-32";

/// Counts the one bits of 64.
pub const I64_CTPOP: &'static str = "population-count-64";

/// The absolute value of a 32-bit float.
pub const F32_FABS: &'static str = "absolute-value-f32";

/// The absolute value of a 64-bit float.
pub const F64_FABS: &'static str = "absolute-value-f64";

/// The square root of a 32-bit float.
pub const F32_SQRT: &'static str = "square-root-f32";

/// The square root of a 64-bit float.
pub const F64_SQRT: &'static str = "square-root-f64";

/// Aborts the generated code; every trap condition lands here.
pub const TRAP: &'static str = "trap";

} // verus!
