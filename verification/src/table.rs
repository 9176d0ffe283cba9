//! The signature table: every runtime function with its exact signature.

use vstd::prelude::*;
use crate::backend::is_backend_name;
use crate::names::{
    F32_FABS, F32_SQRT, F32_TRUNC_F32, F64_FABS, F64_SQRT, F64_TRUNC_F64, GET_MEMORY_PTR,
    I32_CLZ, I32_CTPOP, I32_CTZ, I32_ROTL, I32_ROTR, I32_TRUNC_F32, I32_TRUNC_F64, I64_CLZ,
    I64_CTPOP, I64_CTZ, I64_ROTL, I64_ROTR, I64_TRUNC_F32, I64_TRUNC_F64,
    INITIALIZE_REGION_STUB, TABLE_ADD, TABLE_FETCH, TRAP, U32_TRUNC_F32, U32_TRUNC_F64,
    U64_TRUNC_F32, U64_TRUNC_F64,
};
use crate::types::PrimType::{Bool, Ptr, Void, F32, F64, I32, I64, U32, U64};
use crate::types::{descriptors_view, PrimType, SignatureModel, StubDescriptor, StubModel};

verus! {

/// The entry for `name`, taking `params` and returning `ret`.
pub open spec fn stub(name: &str, params: Seq<PrimType>, ret: PrimType) -> StubModel {
    StubModel { name: name@, signature: SignatureModel { params, ret } }
}

/// The signature table. The runtime library has to match it in name, in the
/// order of the arguments and in every type.
///
/// Both truncations to an integer width return the same integer type: the
/// name says how the bits are to be read.
pub open spec fn stub_table() -> Seq<StubModel> {
    seq![
        stub(INITIALIZE_REGION_STUB, seq![U32, U32, Ptr], Void),
        stub(GET_MEMORY_PTR, seq![U32, U32], Ptr),
        stub(TABLE_ADD, seq![U32, U32, Ptr], Void),
        stub(TABLE_FETCH, seq![U32, U32], Ptr),
        stub(I32_ROTL, seq![U32, U32], U32),
        stub(I32_ROTR, seq![U32, U32], U32),
        stub(I64_ROTL, seq![U64, U64], U64),
        stub(I64_ROTR, seq![U64, U64], U64),
        stub(I32_TRUNC_F32, seq![F32], I32),
        stub(U32_TRUNC_F32, seq![F32], I32),
        stub(I32_TRUNC_F64, seq![F64], I32),
        stub(U32_TRUNC_F64, seq![F64], I32),
        stub(I64_TRUNC_F32, seq![F32], I64),
        stub(U64_TRUNC_F32, seq![F32], I64),
        stub(I64_TRUNC_F64, seq![F64], I64),
        stub(U64_TRUNC_F64, seq![F64], I64),
        stub(F32_TRUNC_F32, seq![F32], F32),
        stub(F64_TRUNC_F64, seq![F64], F64),
        stub(I32_CLZ, seq![I32, Bool], I32),
        stub(I64_CLZ, seq![I64, Bool], I64),
        stub(I32_CTZ, seq![I32, Bool], I32),
        stub(I64_CTZ, seq![I64, Bool], I64),
        stub(I32_CTPOP, seq![I32], I32),
        stub(I64_CTPOP, seq![I64], I64),
        stub(F32_FABS, seq![F32], F32),
        stub(F64_FABS, seq![F64], F64),
        stub(F32_SQRT, seq![F32], F32),
        stub(F64_SQRT, seq![F64], F64),
        stub(TRAP, seq![], Void),
    ]
}

/// Whether the table has an entry under `name`.
pub open spec fn is_stub_name(name: Seq<char>) -> bool {
    exists|i: int| 0 <= i < stub_table().len() && (#[trigger] stub_table()[i]).name == name
}

/// The entry that the table has under `name`.
pub open spec fn stub_named(name: Seq<char>) -> StubModel
    recommends
        is_stub_name(name),
{
    stub_table()[choose|i: int|
        0 <= i < stub_table().len() && (#[trigger] stub_table()[i]).name == name]
}

/// The name of the truncation from a float to an integer: the float of 64
/// bits where `source_wide`, else of 32; the integer of 64 bits where
/// `target_wide`, else of 32; read as signed where `signed`.
pub open spec fn truncation_name(source_wide: bool, target_wide: bool, signed: bool) -> Seq<
    char,
> {
    match (target_wide, source_wide, signed) {
        (false, false, true) => I32_TRUNC_F32@,
        (false, false, false) => U32_TRUNC_F32@,
        (false, true, true) => I32_TRUNC_F64@,
        (false, true, false) => U32_TRUNC_F64@,
        (true, false, true) => I64_TRUNC_F32@,
        (true, false, false) => U64_TRUNC_F32@,
        (true, true, true) => I64_TRUNC_F64@,
        (true, true, false) => U64_TRUNC_F64@,
    }
}

/// What tells two names of the table apart: the length, the first and the
/// last character, and the character ten places from the end.
spec fn fingerprint(s: Seq<char>) -> (nat, char, char, char) {
    (
        s.len(),
        if s.len() > 0 { s[0] } else { ' ' },
        if s.len() > 0 { s[s.len() - 1] } else { ' ' },
        if s.len() >= 10 { s[s.len() - 10] } else { ' ' },
    )
}

/// Character by character: no name holds a NUL, and no two names have the
/// same fingerprint.
proof fn lemma_names_spelled_out()
    ensures
        stub_table().len() == 29,
        forall|i: int|
            0 <= i < stub_table().len() ==> is_backend_name((#[trigger] stub_table()[i]).name),
        forall|i: int, j: int|
            0 <= i < j < stub_table().len() ==> fingerprint((#[trigger] stub_table()[i]).name)
                != fingerprint((#[trigger] stub_table()[j]).name),
{
    reveal_strlit("region-initializer");
    reveal_strlit("memory-address-resolver");
    reveal_strlit("table-insert");
    reveal_strlit("table-lookup");
    reveal_strlit("rotate-left-32");
    reveal_strlit("rotate-right-32");
    reveal_strlit("rotate-left-64");
    reveal_strlit("rotate-right-64");
    reveal_strlit("signed-truncate-to-i32-from-f32");
    reveal_strlit("unsigned-truncate-to-i32-from-f32");
    reveal_strlit("signed-truncate-to-i32-from-f64");
    reveal_strlit("unsigned-truncate-to-i32-from-f64");
    reveal_strlit("signed-truncate-to-i64-from-f32");
    reveal_strlit("unsigned-truncate-to-i64-from-f32");
    reveal_strlit("signed-truncate-to-i64-from-f64");
    reveal_strlit("unsigned-truncate-to-i64-from-f64");
    reveal_strlit("identity-round-f32");
    reveal_strlit("identity-round-f64");
    reveal_strlit("count-leading-zeros-32");
    reveal_strlit("count-leading-zeros-64");
    reveal_strlit("count-trailing-zeros-32");
    reveal_strlit("count-trailing-zeros-64");
    reveal_strlit("population-count-32");
    reveal_strlit("population-count-64");
    reveal_strlit("absolute-value-f32");
    reveal_strlit("absolute-value-f64");
    reveal_strlit("square-root-f32");
    reveal_strlit("square-root-f64");
    reveal_strlit("trap");
    assert forall|i: int| 0 <= i < stub_table().len() implies is_backend_name(
        (#[trigger] stub_table()[i]).name,
    ) by {
        let s = stub_table()[i].name;
        assert forall|k: int| 0 <= k < s.len() implies s[k] != '\0' by {}
    }
}

/// Every name of the table can be handed to the backend.
pub proof fn lemma_names_are_backend_names()
    ensures
        forall|i: int|
            0 <= i < stub_table().len() ==> is_backend_name((#[trigger] stub_table()[i]).name),
{
    lemma_names_spelled_out();
}

/// No two entries of the table share a name.
pub proof fn lemma_names_are_distinct()
    ensures
        forall|i: int, j: int|
            0 <= i < j < stub_table().len() ==> (#[trigger] stub_table()[i]).name != (
            #[trigger] stub_table()[j]).name,
{
    lemma_names_spelled_out();
}

/// An entry of the table is the entry under its own name.
pub proof fn lemma_stub_named(i: int)
    requires
        0 <= i < stub_table().len(),
    ensures
        is_stub_name(stub_table()[i].name),
        stub_named(stub_table()[i].name) == stub_table()[i],
{
    lemma_names_are_distinct();
}

/// Builds the signature table: one descriptor for each runtime function, in
/// the order of [`stub_table`].
pub fn signature_table() -> (t: Vec<StubDescriptor>)
    ensures
        descriptors_view(t@) == stub_table(),
{
    let mut t: Vec<StubDescriptor> = Vec::new();
    t.push(StubDescriptor::new(INITIALIZE_REGION_STUB, vec![U32, U32, Ptr], Void));
    t.push(StubDescriptor::new(GET_MEMORY_PTR, vec![U32, U32], Ptr));
    t.push(StubDescriptor::new(TABLE_ADD, vec![U32, U32, Ptr], Void));
    t.push(StubDescriptor::new(TABLE_FETCH, vec![U32, U32], Ptr));
    t.push(StubDescriptor::new(I32_ROTL, vec![U32, U32], U32));
    t.push(StubDescriptor::new(I32_ROTR, vec![U32, U32], U32));
    t.push(StubDescriptor::new(I64_ROTL, vec![U64, U64], U64));
    t.push(StubDescriptor::new(I64_ROTR, vec![U64, U64], U64));
    t.push(StubDescriptor::new(I32_TRUNC_F32, vec![F32], I32));
    t.push(StubDescriptor::new(U32_TRUNC_F32, vec![F32], I32));
    t.push(StubDescriptor::new(I32_TRUNC_F64, vec![F64], I32));
    t.push(StubDescriptor::new(U32_TRUNC_F64, vec![F64], I32));
    t.push(StubDescriptor::new(I64_TRUNC_F32, vec![F32], I64));
    t.push(StubDescriptor::new(U64_TRUNC_F32, vec![F32], I64));
    t.push(StubDescriptor::new(I64_TRUNC_F64, vec![F64], I64));
    t.push(StubDescriptor::new(U64_TRUNC_F64, vec![F64], I64));
    t.push(StubDescriptor::new(F32_TRUNC_F32, vec![F32], F32));
    t.push(StubDescriptor::new(F64_TRUNC_F64, vec![F64], F64));
    t.push(StubDescriptor::new(I32_CLZ, vec![I32, Bool], I32));
    t.push(StubDescriptor::new(I64_CLZ, vec![I64, Bool], I64));
    t.push(StubDescriptor::new(I32_CTZ, vec![I32, Bool], I32));
    t.push(StubDescriptor::new(I64_CTZ, vec![I64, Bool], I64));
    t.push(StubDescriptor::new(I32_CTPOP, vec![I32], I32));
    t.push(StubDescriptor::new(I64_CTPOP, vec![I64], I64));
    t.push(StubDescriptor::new(F32_FABS, vec![F32], F32));
    t.push(StubDescriptor::new(F64_FABS, vec![F64], F64));
    t.push(StubDescriptor::new(F32_SQRT, vec![F32], F32));
    t.push(StubDescriptor::new(F64_SQRT, vec![F64], F64));
    t.push(StubDescriptor::new(TRAP, Vec::new(), Void));
    assert(descriptors_view(t@) =~= stub_table()) by {
        assert forall|i: int| 0 <= i < 29 implies descriptors_view(t@)[i] == stub_table()[i] by {
            assert(t@[i]@.signature.params =~= stub_table()[i].signature.params);
        }
    }
    t
}

/// Looks `name` up in the signature table: the entry under that name, or
/// `None` where the table has no such name.
pub fn find_stub(name: &str) -> (r: Option<StubDescriptor>)
    ensures
        r is Some <==> is_stub_name(name@),
        r matches Some(d) ==> d@ == stub_named(name@),
{
    let mut table = signature_table();
    let key = name.to_owned();
    let mut i: usize = 0;
    while i < table.len()
        invariant
            i <= table.len(),
            descriptors_view(table@) == stub_table(),
            key@ == name@,
            forall|j: int| 0 <= j < i ==> (#[trigger] stub_table()[j]).name != name@,
        decreases table.len() - i,
    {
        assert(descriptors_view(table@)[i as int] == table@[i as int]@);
        if table[i].name == key {
            proof {
                lemma_stub_named(i as int);
            }
            return Some(table.swap_remove(i));
        }
        i += 1;
    }
    None
}

} // verus!
