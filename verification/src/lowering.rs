//! From the primitive types of the table to the types of the backend.

use vstd::prelude::*;
use crate::backend::{
    bool_type, bool_type_of, function_type, function_type_of, i32_type, i32_type_of, i64_type,
    i64_type_of, referents, u32_type, u32_type_of, u64_type, u64_type_of, void_type,
    void_type_of,
};
use crate::types::{PrimType, SignatureModel, TypeSignature};

verus! {

/// The backend types that the caller builds: the two floating-point types
/// and the pointer to bytes. They are taken as they come: the backend's
/// types are opaque here.
pub struct ForeignTypes<'a> {
    /// The 32-bit float type.
    pub float32: &'a llvm::Type,
    /// The 64-bit float type.
    pub float64: &'a llvm::Type,
    /// The type of a pointer to bytes.
    pub byte_ptr: &'a llvm::Type,
}

/// The backend type that stands for a primitive type: for a float or the
/// pointer, the type that the caller built; for the others, the one that
/// the context gives.
pub open spec fn lowered_prim(
    ctx: llvm::Context,
    foreign: ForeignTypes<'_>,
    ty: PrimType,
) -> llvm::Type {
    match ty {
        PrimType::U32 => u32_type_of(ctx),
        PrimType::U64 => u64_type_of(ctx),
        PrimType::I32 => i32_type_of(ctx),
        PrimType::I64 => i64_type_of(ctx),
        PrimType::F32 => *foreign.float32,
        PrimType::F64 => *foreign.float64,
        PrimType::Ptr => *foreign.byte_ptr,
        PrimType::Bool => bool_type_of(ctx),
        PrimType::Void => void_type_of(ctx),
    }
}

/// The backend types that stand for a list of primitive types, one for one
/// and in order.
pub open spec fn lowered_params(
    ctx: llvm::Context,
    foreign: ForeignTypes<'_>,
    params: Seq<PrimType>,
) -> Seq<llvm::Type> {
    params.map_values(|p: PrimType| lowered_prim(ctx, foreign, p))
}

/// The backend function type that stands for a signature: the one that the
/// backend makes of the lowered return type and the lowered parameter
/// types.
pub open spec fn lowered_signature(
    ctx: llvm::Context,
    foreign: ForeignTypes<'_>,
    sig: SignatureModel,
) -> llvm::FunctionType {
    function_type_of(lowered_prim(ctx, foreign, sig.ret), lowered_params(ctx, foreign, sig.params))
}

/// The backend type for a primitive type.
pub(crate) fn lower_prim<'a>(
    ctx: &'a llvm::Context,
    foreign: &ForeignTypes<'a>,
    ty: PrimType,
) -> (r: &'a llvm::Type)
    ensures
        *r == lowered_prim(*ctx, *foreign, ty),
{
    match ty {
        PrimType::U32 => u32_type(ctx),
        PrimType::U64 => u64_type(ctx),
        PrimType::I32 => i32_type(ctx),
        PrimType::I64 => i64_type(ctx),
        PrimType::F32 => foreign.float32,
        PrimType::F64 => foreign.float64,
        PrimType::Ptr => foreign.byte_ptr,
        PrimType::Bool => bool_type(ctx),
        PrimType::Void => void_type(ctx),
    }
}

/// The backend types for a list of primitive types, one for one and in
/// order.
pub(crate) fn lower_params<'a>(
    ctx: &'a llvm::Context,
    foreign: &ForeignTypes<'a>,
    params: &Vec<PrimType>,
) -> (r: Vec<&'a llvm::Type>)
    ensures
        referents(r@) == lowered_params(*ctx, *foreign, params@),
{
    let mut lowered: Vec<&'a llvm::Type> = Vec::new();
    let mut i: usize = 0;
    while i < params.len()
        invariant
            i <= params.len(),
            referents(lowered@) == lowered_params(*ctx, *foreign, params@.take(i as int)),
        decreases params.len() - i,
    {
        let ghost before = lowered@;
        lowered.push(lower_prim(ctx, foreign, params[i]));
        assert(referents(lowered@) =~= lowered_params(
            *ctx,
            *foreign,
            params@.take(i + 1),
        )) by {
            assert(params@.take(i + 1) =~= params@.take(i as int).push(params@[i as int]));
            assert(referents(before).len() == i);
            assert forall|j: int| 0 <= j < i implies referents(lowered@)[j] == lowered_params(
                *ctx,
                *foreign,
                params@.take(i + 1),
            )[j] by {
                assert(referents(before)[j] == lowered_params(
                    *ctx,
                    *foreign,
                    params@.take(i as int),
                )[j]);
            }
        }
        i += 1;
    }
    assert(params@.take(params@.len() as int) =~= params@);
    lowered
}

/// The backend function type for a signature.
pub(crate) fn lower_signature<'a>(
    ctx: &'a llvm::Context,
    foreign: &ForeignTypes<'a>,
    sig: &TypeSignature,
) -> (r: &'a llvm::FunctionType)
    ensures
        *r == lowered_signature(*ctx, *foreign, sig@),
{
    let params = lower_params(ctx, foreign, &sig.params);
    function_type(lower_prim(ctx, foreign, sig.ret), &params)
}

} // verus!
