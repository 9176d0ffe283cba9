//! The registrar: declares every function of the signature table in a
//! module, once.

use vstd::prelude::*;
use crate::backend::{
    add_function, declared_functions, declared_globals, declared_signature, function_named,
    get_function, get_global, given_name, is_backend_name,
};
use crate::error::StubError;
use crate::lowering::{lower_signature, lowered_signature, ForeignTypes};
use crate::table::{
    is_stub_name, lemma_names_are_backend_names, lemma_names_are_distinct, lemma_stub_named,
    signature_table, stub_table,
};
use crate::types::{descriptors_view, StubDescriptor};

verus! {

/// The names of the table, as a set.
pub open spec fn stub_name_set() -> Set<Seq<char>> {
    Set::new(|n: Seq<char>| is_stub_name(n))
}

/// The names of the first `n` entries of the table.
pub open spec fn names_before(n: int) -> Set<Seq<char>> {
    Set::new(
        |s: Seq<char>| exists|j: int| 0 <= j < n && (#[trigger] stub_table()[j]).name == s,
    )
}

/// The names that a module is found to have taken: those of its functions
/// and those of its globals.
pub open spec fn taken_names(m: llvm::Module) -> Set<Seq<char>> {
    declared_functions(m).union(declared_globals(m))
}

/// Whether `taken` holds the name of some entry of the table.
pub open spec fn has_conflict(taken: Set<Seq<char>>) -> bool {
    exists|i: int| 0 <= i < stub_table().len() && taken.contains((#[trigger] stub_table()[i]).name)
}

/// Whether entry `i` is the first of the table whose name `taken` holds.
pub open spec fn is_first_conflict(taken: Set<Seq<char>>, i: int) -> bool {
    &&& 0 <= i < stub_table().len()
    &&& taken.contains(stub_table()[i].name)
    &&& forall|j: int| 0 <= j < i ==> !taken.contains((#[trigger] stub_table()[j]).name)
}

/// Whether the backend gives a function that is asked for in `m` under the
/// name of entry `i` that very name.
pub open spec fn gives_name(m: llvm::Module, i: int) -> bool {
    given_name(m, stub_table()[i].name) == stub_table()[i].name
}

/// Whether entry `k` is the first of the table whose name the backend does
/// not give in `m`.
pub open spec fn is_first_renamed(m: llvm::Module, k: int) -> bool {
    &&& 0 <= k < stub_table().len()
    &&& !gives_name(m, k)
    &&& forall|j: int| 0 <= j < k ==> #[trigger] gives_name(m, j)
}

/// Whether the table can be registered in `m`: no name of the table is
/// found taken in it, and the backend gives each of them.
pub open spec fn accepts_table(m: llvm::Module) -> bool {
    &&& !has_conflict(taken_names(m))
    &&& forall|i: int| 0 <= i < stub_table().len() ==> #[trigger] gives_name(m, i)
}

/// Whether `after` holds each of the first `n` entries of the table with
/// the backend type that stands for the entry's signature.
pub open spec fn holds_rows(
    ctx: llvm::Context,
    foreign: ForeignTypes<'_>,
    after: llvm::Module,
    n: int,
) -> bool {
    forall|i: int|
        0 <= i < n ==> declared_signature(after, (#[trigger] stub_table()[i]).name)
            == lowered_signature(ctx, foreign, stub_table()[i].signature)
}

/// Whether `after` has kept what `before` held: the same globals, and each
/// function as the same function with the same type.
pub open spec fn keeps(before: llvm::Module, after: llvm::Module) -> bool {
    &&& declared_globals(after) == declared_globals(before)
    &&& forall|n: Seq<char>|
        declared_functions(before).contains(n) ==> #[trigger] declared_signature(after, n)
            == declared_signature(before, n)
    &&& forall|n: Seq<char>|
        declared_functions(before).contains(n) ==> #[trigger] function_named(after, n)
            == function_named(before, n)
}

/// What a registration that succeeded has done to a module: it holds
/// afterwards what it held, unchanged, and one function under each name of
/// the table, with the backend type that stands for the entry's signature.
pub open spec fn registered(
    ctx: llvm::Context,
    foreign: ForeignTypes<'_>,
    before: llvm::Module,
    after: llvm::Module,
) -> bool {
    &&& declared_functions(after) == declared_functions(before).union(stub_name_set())
    &&& holds_rows(ctx, foreign, after, stub_table().len() as int)
    &&& keeps(before, after)
}

/// What is left where the backend gave the function for entry `k` the name
/// `stray` instead of the entry's own: what the module held, unchanged; the
/// entries before `k`, as they are registered; and the function for entry
/// `k` under the name `stray`, which nothing had.
pub open spec fn left_with_stray(
    ctx: llvm::Context,
    foreign: ForeignTypes<'_>,
    before: llvm::Module,
    after: llvm::Module,
    k: int,
    stray: Seq<char>,
) -> bool {
    &&& is_first_renamed(before, k)
    &&& stray != stub_table()[k].name
    &&& !declared_functions(before).contains(stray)
    &&& !names_before(k).contains(stray)
    &&& declared_functions(after) == declared_functions(before).union(names_before(k)).insert(
        stray,
    )
    &&& holds_rows(ctx, foreign, after, k)
    &&& declared_signature(after, stray) == lowered_signature(
        ctx,
        foreign,
        stub_table()[k].signature,
    )
    &&& keeps(before, after)
}

/// What a registration that failed over `name` has done to a module.
///
/// Where a name of the table was found taken, `name` is the first such and
/// the module is as it was. Otherwise `name` is the first of the table that
/// the backend did not give, because something which no lookup finds holds
/// it, and the module is left with a stray function: the backend has no way
/// to take a function out again.
pub open spec fn rejected(
    ctx: llvm::Context,
    foreign: ForeignTypes<'_>,
    before: llvm::Module,
    after: llvm::Module,
    name: Seq<char>,
) -> bool {
    if has_conflict(taken_names(before)) {
        &&& after == before
        &&& exists|i: int|
            is_first_conflict(taken_names(before), i) && name == (#[trigger] stub_table()[i]).name
    } else {
        exists|k: int, stray: Seq<char>| #[trigger]
            left_with_stray(ctx, foreign, before, after, k, stray) && name == stub_table()[k].name
    }
}

/// Whether a function was declared under the name that was asked for:
/// `given` is the name that the backend gave it. Where the two differ the
/// name asked for is taken.
pub fn check_given_name(asked: &str, given: &String) -> (r: Result<(), StubError>)
    ensures
        given@ == asked@ ==> r is Ok,
        given@ != asked@ ==> r is Err && r->Err_0 is AlreadyDeclared && r->Err_0.spec_name()
            == asked@,
{
    let wanted = asked.to_owned();
    if *given == wanted {
        Ok(())
    } else {
        Err(StubError::AlreadyDeclared(wanted))
    }
}

/// The first entry of the table whose name the module has taken.
fn find_conflict(m: &llvm::Module, table: &Vec<StubDescriptor>) -> (r: Option<usize>)
    requires
        descriptors_view(table@) == stub_table(),
    ensures
        match r {
            Some(i) => is_first_conflict(taken_names(*m), i as int),
            None => !has_conflict(taken_names(*m)),
        },
{
    proof {
        lemma_names_are_backend_names();
    }
    let mut i: usize = 0;
    while i < table.len()
        invariant
            i <= table.len(),
            descriptors_view(table@) == stub_table(),
            forall|j: int|
                0 <= j < stub_table().len() ==> is_backend_name(
                    (#[trigger] stub_table()[j]).name,
                ),
            forall|j: int|
                0 <= j < i ==> !taken_names(*m).contains((#[trigger] stub_table()[j]).name),
        decreases table.len() - i,
    {
        assert(descriptors_view(table@)[i as int] == table@[i as int]@);
        let name = table[i].name.as_str();
        if get_function(m, name).is_some() || get_global(m, name).is_some() {
            return Some(i);
        }
        i += 1;
    }
    None
}

/// Declares the entries of the table in order, up to the first whose name
/// the backend does not give.
fn declare_all<'a>(
    ctx: &'a llvm::Context,
    foreign: &ForeignTypes<'a>,
    m: &mut llvm::Module,
    table: &Vec<StubDescriptor>,
) -> (r: Result<(), StubError>)
    requires
        descriptors_view(table@) == stub_table(),
        !has_conflict(taken_names(*old(m))),
    ensures
        r is Ok <==> accepts_table(*old(m)),
        r is Ok ==> registered(*ctx, *foreign, *old(m), *final(m)),
        r matches Err(e) ==> e is AlreadyDeclared && rejected(
            *ctx,
            *foreign,
            *old(m),
            *final(m),
            e.spec_name(),
        ),
{
    proof {
        lemma_names_are_backend_names();
        lemma_names_are_distinct();
    }
    let mut i: usize = 0;
    while i < table.len()
        invariant
            i <= table.len(),
            descriptors_view(table@) == stub_table(),
            !has_conflict(taken_names(*old(m))),
            forall|j: int|
                0 <= j < stub_table().len() ==> is_backend_name(
                    (#[trigger] stub_table()[j]).name,
                ),
            forall|j: int, k: int|
                0 <= j < k < stub_table().len() ==> (#[trigger] stub_table()[j]).name != (
                #[trigger] stub_table()[k]).name,
            declared_functions(*m) == declared_functions(*old(m)).union(
                names_before(i as int),
            ),
            holds_rows(*ctx, *foreign, *m, i as int),
            keeps(*old(m), *m),
            forall|j: int| 0 <= j < i ==> #[trigger] gives_name(*old(m), j),
            forall|j: int|
                i <= j < stub_table().len() ==> (#[trigger] gives_name(*m, j) <==> gives_name(
                    *old(m),
                    j,
                )),
        decreases table.len() - i,
    {
        assert(descriptors_view(table@)[i as int] == table@[i as int]@);
        let ghost name = stub_table()[i as int].name;
        let ghost held = *m;
        assert(!declared_functions(*old(m)).contains(name)) by {
            assert(!taken_names(*old(m)).contains(name));
        }
        let sig = lower_signature(ctx, foreign, &table[i].signature);
        let given = add_function(m, table[i].name.as_str(), sig);
        proof {
            assert(gives_name(held, i as int) <==> given@ == name);
            assert(keeps(*old(m), *m));
            assert(holds_rows(*ctx, *foreign, *m, i as int)) by {
                assert forall|j: int| 0 <= j < i implies declared_signature(
                    *m,
                    (#[trigger] stub_table()[j]).name,
                ) == lowered_signature(*ctx, *foreign, stub_table()[j].signature) by {
                    assert(names_before(i as int).contains(stub_table()[j].name));
                }
            }
        }
        match check_given_name(table[i].name.as_str(), &given) {
            Err(e) => {
                proof {
                    assert(is_first_renamed(*old(m), i as int));
                    assert(left_with_stray(*ctx, *foreign, *old(m), *m, i as int, given@));
                    assert(!accepts_table(*old(m)));
                }
                return Err(e);
            },
            Ok(()) => {},
        }
        proof {
            assert(names_before(i + 1) =~= names_before(i as int).insert(name));
            assert(declared_functions(*m) =~= declared_functions(*old(m)).union(
                names_before(i + 1),
            ));
            assert forall|j: int| i + 1 <= j < stub_table().len() implies (#[trigger] gives_name(
                *m,
                j,
            ) <==> gives_name(*old(m), j)) by {
                assert(gives_name(held, j) <==> gives_name(*old(m), j));
                assert(stub_table()[j].name != given@);
            }
        }
        i += 1;
    }
    assert(names_before(stub_table().len() as int) =~= stub_name_set());
    Ok(())
}

/// Declares every function of the signature table in `m`.
///
/// Succeeds exactly where no name of the table is taken in `m`. `m` then
/// holds what it held, unchanged, and one function under each name of the
/// table, declared with the backend type that stands for the entry's
/// signature. No code is emitted.
///
/// Where `m` holds a function or a global under a name of the table,
/// nothing is declared and the error names the first such entry: the module
/// was set up twice, or the name is in use, which is a defect of the
/// backend either way.
///
/// A name can also be held by something that no lookup finds. This shows
/// only when the backend gives the function another name than the one asked
/// for. The error then names that entry; the entries before it stay
/// declared, and so does the function under the other name, for the backend
/// has no way to take them out again.
///
/// The backend's types are those of `ctx`, but for the three in `foreign`.
/// That `m` and `foreign` belong to `ctx` is not looked at.
pub fn insert_runtime_stubs<'a>(
    ctx: &'a llvm::Context,
    foreign: &ForeignTypes<'a>,
    m: &mut llvm::Module,
) -> (r: Result<(), StubError>)
    ensures
        r is Ok <==> accepts_table(*old(m)),
        r is Ok ==> registered(*ctx, *foreign, *old(m), *final(m)),
        r matches Err(e) ==> e is AlreadyDeclared && rejected(
            *ctx,
            *foreign,
            *old(m),
            *final(m),
            e.spec_name(),
        ),
{
    let table = signature_table();
    match find_conflict(m, &table) {
        Some(i) => {
            assert(descriptors_view(table@)[i as int] == table@[i as int]@);
            Err(StubError::AlreadyDeclared(table[i].name.clone()))
        },
        None => declare_all(ctx, foreign, m, &table),
    }
}

} // verus!
