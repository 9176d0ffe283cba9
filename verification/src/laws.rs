//! What holds of the table, the registrar and the resolver together.

use vstd::prelude::*;
use crate::backend::{declared_functions, declared_signature, function_named};
use crate::error::StubError;
use crate::lowering::{lowered_signature, ForeignTypes};
use crate::registrar::{
    accepts_table, has_conflict, is_first_conflict, registered, rejected, stub_name_set,
    taken_names,
};
use crate::resolver::{holds_function, resolution, resolves, HandleModel, StubHandle};
use crate::table::{
    is_stub_name, lemma_names_are_backend_names, lemma_stub_named, stub_named, stub_table,
    truncation_name,
};
use crate::types::{PrimType, SignatureModel};

verus! {

/// After a registration that succeeded, every name of the table resolves:
/// to the function that the module holds under it, with the table's own
/// entry, and that function was declared with the backend type which stands
/// for the entry's signature.
pub proof fn law_registered_stubs_resolve(
    ctx: llvm::Context,
    foreign: ForeignTypes<'_>,
    before: llvm::Module,
    after: llvm::Module,
    i: int,
)
    requires
        registered(ctx, foreign, before, after),
        0 <= i < stub_table().len(),
    ensures
        resolution(after, stub_table()[i].name) == Ok::<HandleModel, Seq<char>>(
            HandleModel {
                function: function_named(after, stub_table()[i].name),
                descriptor: Some(stub_table()[i]),
            },
        ),
        declared_signature(after, stub_table()[i].name) == lowered_signature(
            ctx,
            foreign,
            stub_table()[i].signature,
        ),
{
    lemma_stub_named(i);
    lemma_names_are_backend_names();
    assert(stub_name_set().contains(stub_table()[i].name));
}

/// A second registration fails: after one that succeeded the first name of
/// the table is found taken, so that the next one reports it and leaves the
/// module as it is.
pub proof fn law_second_registration_fails(
    ctx: llvm::Context,
    foreign: ForeignTypes<'_>,
    before: llvm::Module,
    once: llvm::Module,
    twice: llvm::Module,
    name: Seq<char>,
)
    requires
        registered(ctx, foreign, before, once),
    ensures
        !accepts_table(once),
        rejected(ctx, foreign, once, twice, name) ==> twice == once && name
            == stub_table()[0].name,
{
    lemma_stub_named(0);
    assert(stub_name_set().contains(stub_table()[0].name));
    assert(is_first_conflict(taken_names(once), 0));
    assert(has_conflict(taken_names(once)));
}

/// A name that the module holds no function under does not resolve.
pub proof fn law_undeclared_name_is_missing(m: llvm::Module, name: Seq<char>)
    requires
        !declared_functions(m).contains(name),
    ensures
        resolution(m, name) == Err::<HandleModel, Seq<char>>(name),
{
}

/// After a registration that succeeded, resolving fails for the names that
/// neither the table has nor the module held before, and for no others.
pub proof fn law_only_unregistered_names_are_missing(
    ctx: llvm::Context,
    foreign: ForeignTypes<'_>,
    before: llvm::Module,
    after: llvm::Module,
    name: Seq<char>,
)
    requires
        registered(ctx, foreign, before, after),
    ensures
        resolution(after, name) is Err <==> !is_stub_name(name) && !holds_function(before, name),
{
    assert(stub_name_set().contains(name) <==> is_stub_name(name));
    if is_stub_name(name) {
        lemma_names_are_backend_names();
    }
}

/// Two resolutions of one name in one module agree: both give a handle for
/// the same function of the backend with the same entry of the table, or
/// both report the same name as missing.
pub proof fn law_resolution_is_stable(
    m: llvm::Module,
    name: Seq<char>,
    first: Result<StubHandle<'_>, StubError>,
    second: Result<StubHandle<'_>, StubError>,
)
    requires
        resolves(m, name, first),
        resolves(m, name, second),
    ensures
        first is Ok <==> second is Ok,
        first is Ok ==> first->Ok_0@ == second->Ok_0@ && *first->Ok_0.function
            == *second->Ok_0.function,
        first is Err ==> first->Err_0 is MissingStub && second->Err_0 is MissingStub
            && first->Err_0.spec_name() == second->Err_0.spec_name(),
{
}

/// Each of the eight truncations is in the table, takes exactly one float
/// of the source's width and returns the integer type of the target's
/// width: the table declares the unsigned truncations with the same integer
/// type as the signed ones.
pub proof fn law_truncation_signatures(source_wide: bool, target_wide: bool, signed: bool)
    ensures
        is_stub_name(truncation_name(source_wide, target_wide, signed)),
        stub_named(truncation_name(source_wide, target_wide, signed)).signature == (
        SignatureModel {
            params: seq![if source_wide { PrimType::F64 } else { PrimType::F32 }],
            ret: if target_wide { PrimType::I64 } else { PrimType::I32 },
        }),
{
    let row: int = 8 + if target_wide { 4int } else { 0 } + if source_wide { 2int } else { 0 }
        + if signed { 0int } else { 1 };
    lemma_stub_named(row);
    assert(stub_table()[row].name == truncation_name(source_wide, target_wide, signed));
    assert(stub_table()[row].signature.params =~= seq![
        if source_wide { PrimType::F64 } else { PrimType::F32 },
    ]);
}

} // verus!
