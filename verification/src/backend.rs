//! The backend: LLVM's contexts, modules, types and functions, and the calls
//! that this crate makes into them.
//!
//! Nothing in this file is proved. Each item states what the rest of the
//! crate takes on trust about the backend.

use vstd::prelude::*;

verus! {

/// `llvm::Context`: owns every type and module made in it.
#[verifier::external_type_specification]
#[verifier::external_body]
pub struct ExContext(llvm::Context);

/// `llvm::Module`: one compilation unit, the owner of its declarations.
#[verifier::external_type_specification]
#[verifier::external_body]
pub struct ExModule(llvm::Module);

/// `llvm::Type`: a type of the backend.
#[verifier::external_type_specification]
#[verifier::external_body]
pub struct ExType(llvm::Type);

/// `llvm::FunctionType`: the type of a function.
#[verifier::external_type_specification]
#[verifier::external_body]
pub struct ExFunctionType(llvm::FunctionType);

/// `llvm::Function`: a function that a module holds.
#[verifier::external_type_specification]
#[verifier::external_body]
pub struct ExFunction(llvm::Function);

/// `llvm::GlobalValue`: what `llvm::Module::get_global` finds.
#[verifier::external_type_specification]
#[verifier::external_body]
pub struct ExGlobalValue(llvm::GlobalValue);

/// The names under which `llvm::Module::get_function` finds a function in
/// a module.
pub uninterp spec fn declared_functions(m: llvm::Module) -> Set<Seq<char>>;

/// The names under which `llvm::Module::get_global` finds a global in a
/// module.
pub uninterp spec fn declared_globals(m: llvm::Module) -> Set<Seq<char>>;

/// The function that `llvm::Module::get_function` finds in a module under a
/// name.
pub uninterp spec fn function_named(m: llvm::Module, name: Seq<char>) -> llvm::Function;

/// The type with which the function that a module holds under a name was
/// added to it.
pub uninterp spec fn declared_signature(m: llvm::Module, name: Seq<char>) -> llvm::FunctionType;

/// The name that `llvm::Module::add_function` gives a function which is
/// asked for under a name in a module: that name, unless something in the
/// module holds it already.
pub uninterp spec fn given_name(m: llvm::Module, asked: Seq<char>) -> Seq<char>;

/// What `<u32 as llvm::Compile>::get_type` gives in a context.
pub uninterp spec fn u32_type_of(ctx: llvm::Context) -> llvm::Type;

/// What `<u64 as llvm::Compile>::get_type` gives in a context.
pub uninterp spec fn u64_type_of(ctx: llvm::Context) -> llvm::Type;

/// What `<i32 as llvm::Compile>::get_type` gives in a context.
pub uninterp spec fn i32_type_of(ctx: llvm::Context) -> llvm::Type;

/// What `<i64 as llvm::Compile>::get_type` gives in a context.
pub uninterp spec fn i64_type_of(ctx: llvm::Context) -> llvm::Type;

/// What `<bool as llvm::Compile>::get_type` gives in a context.
pub uninterp spec fn bool_type_of(ctx: llvm::Context) -> llvm::Type;

/// What `<() as llvm::Compile>::get_type` gives in a context.
pub uninterp spec fn void_type_of(ctx: llvm::Context) -> llvm::Type;

/// What `llvm::FunctionType::new` gives for a return type and parameter
/// types.
pub uninterp spec fn function_type_of(
    ret: llvm::Type,
    params: Seq<llvm::Type>,
) -> llvm::FunctionType;

/// Whether `name` can be handed to the backend as the name of a function.
/// The backend converts names to C strings and panics on one that holds a
/// NUL character; it keeps no function under the empty name.
pub open spec fn is_backend_name(name: Seq<char>) -> bool {
    name.len() > 0 && !name.contains('\0')
}

/// The types that a list of references refers to.
pub open spec fn referents(types: Seq<&llvm::Type>) -> Seq<llvm::Type> {
    types.map_values(|t: &llvm::Type| *t)
}

/// `<u32 as llvm::Compile>::get_type`. Claimed: the result depends on the
/// context alone.
#[verifier::external_body]
pub(crate) fn u32_type<'a>(ctx: &'a llvm::Context) -> (r: &'a llvm::Type)
    ensures
        *r == u32_type_of(*ctx),
{
    <u32 as llvm::Compile>::get_type(ctx)
}

/// `<u64 as llvm::Compile>::get_type`. Claimed: the result depends on the
/// context alone.
#[verifier::external_body]
pub(crate) fn u64_type<'a>(ctx: &'a llvm::Context) -> (r: &'a llvm::Type)
    ensures
        *r == u64_type_of(*ctx),
{
    <u64 as llvm::Compile>::get_type(ctx)
}

/// `<i32 as llvm::Compile>::get_type`. Claimed: the result depends on the
/// context alone.
#[verifier::external_body]
pub(crate) fn i32_type<'a>(ctx: &'a llvm::Context) -> (r: &'a llvm::Type)
    ensures
        *r == i32_type_of(*ctx),
{
    <i32 as llvm::Compile>::get_type(ctx)
}

/// `<i64 as llvm::Compile>::get_type`. Claimed: the result depends on the
/// context alone.
#[verifier::external_body]
pub(crate) fn i64_type<'a>(ctx: &'a llvm::Context) -> (r: &'a llvm::Type)
    ensures
        *r == i64_type_of(*ctx),
{
    <i64 as llvm::Compile>::get_type(ctx)
}

/// `<bool as llvm::Compile>::get_type`. Claimed: the result depends on the
/// context alone.
#[verifier::external_body]
pub(crate) fn bool_type<'a>(ctx: &'a llvm::Context) -> (r: &'a llvm::Type)
    ensures
        *r == bool_type_of(*ctx),
{
    <bool as llvm::Compile>::get_type(ctx)
}

/// `<() as llvm::Compile>::get_type`. Claimed: the result depends on the
/// context alone.
#[verifier::external_body]
pub(crate) fn void_type<'a>(ctx: &'a llvm::Context) -> (r: &'a llvm::Type)
    ensures
        *r == void_type_of(*ctx),
{
    <() as llvm::Compile>::get_type(ctx)
}

/// `llvm::FunctionType::new`. Claimed: the result depends on the return
/// type and on the parameter types, in their order, alone.
#[verifier::external_body]
pub(crate) fn function_type<'a>(ret: &'a llvm::Type, params: &Vec<&'a llvm::Type>) -> (r:
    &'a llvm::FunctionType)
    ensures
        *r == function_type_of(*ret, referents(params@)),
{
    llvm::FunctionType::new(ret, params.as_slice())
}

/// `llvm::Module::add_function`, then `llvm::Function::get_name` on the
/// function that was added. Handed back is the name that the new function
/// has in the module: LLVM gives a newcomer another name than the one asked
/// for where that one is taken.
///
/// Claimed: the name handed back depends on the module and on the name
/// asked for alone, and no function had it. The module holds afterwards the
/// functions it held and the new one, under the name handed back and with
/// the type `sig`. The functions it held are the same functions with the
/// same types, and its globals are the same. A name other than the one
/// handed back is free afterwards exactly if it was free before.
#[verifier::external_body]
pub(crate) fn add_function(m: &mut llvm::Module, name: &str, sig: &llvm::FunctionType) -> (given:
    String)
    requires
        is_backend_name(name@),
    ensures
        given@ == given_name(*old(m), name@),
        !declared_functions(*old(m)).contains(given@),
        declared_functions(*final(m)) == declared_functions(*old(m)).insert(given@),
        declared_globals(*final(m)) == declared_globals(*old(m)),
        declared_signature(*final(m), given@) == *sig,
        forall|other: Seq<char>|
            declared_functions(*old(m)).contains(other) ==> #[trigger] declared_signature(
                *final(m),
                other,
            ) == declared_signature(*old(m), other),
        forall|other: Seq<char>|
            declared_functions(*old(m)).contains(other) ==> #[trigger] function_named(
                *final(m),
                other,
            ) == function_named(*old(m), other),
        forall|other: Seq<char>|
            is_backend_name(other) && other != given@ ==> ((#[trigger] given_name(
                *final(m),
                other,
            )) == other <==> given_name(*old(m), other) == other),
{
    m.add_function(name, llvm::Sub::to_super(sig)).get_name().to_owned()
}

/// `llvm::Module::get_function`. Claimed: the result is a function exactly
/// when the module holds one called `name`, and depends on the module and
/// the name alone.
#[verifier::external_body]
pub(crate) fn get_function<'a>(m: &'a llvm::Module, name: &str) -> (r: Option<
    &'a llvm::Function,
>)
    requires
        is_backend_name(name@),
    ensures
        r is Some <==> declared_functions(*m).contains(name@),
        r matches Some(f) ==> *f == function_named(*m, name@),
{
    m.get_function(name)
}

/// `llvm::Module::get_global`. Claimed: the result is a global exactly when
/// the module holds one called `name`.
#[verifier::external_body]
pub(crate) fn get_global<'a>(m: &'a llvm::Module, name: &str) -> (r: Option<
    &'a llvm::GlobalValue,
>)
    requires
        is_backend_name(name@),
    ensures
        r is Some <==> declared_globals(*m).contains(name@),
{
    m.get_global(name)
}

} // verus!
