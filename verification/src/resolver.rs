//! The resolver: finds a declared function again by its name.

use vstd::prelude::*;
use vstd::std_specs::iter::IteratorSpec;
use crate::backend::{declared_functions, function_named, get_function, is_backend_name};
use crate::error::StubError;
use crate::table::{find_stub, is_stub_name, stub_named};
use crate::types::{StubDescriptor, StubModel};

verus! {

/// What lowering code carries around for the module that it fills.
pub struct ModuleCtx<'a> {
    /// The backend module.
    pub llvm_module: &'a llvm::Module,
}

/// A function that a module holds, as the resolver hands it out.
#[derive(PartialEq, Eq)]
pub struct StubHandle<'a> {
    /// The function in the backend module, to emit calls against.
    pub function: &'a llvm::Function,
    /// The table's entry under the function's name, where the table has
    /// one.
    pub descriptor: Option<StubDescriptor>,
}

/// What a handle is: the backend's function, and the table's entry under
/// its name, where there is one.
pub struct HandleModel {
    pub function: llvm::Function,
    pub descriptor: Option<StubModel>,
}

impl<'a> View for StubHandle<'a> {
    type V = HandleModel;

    open spec fn view(&self) -> HandleModel {
        HandleModel {
            function: *self.function,
            descriptor: match self.descriptor {
                Some(d) => Some(d@),
                None => None,
            },
        }
    }
}

/// The table's entry under `name`, where it has one.
pub open spec fn table_entry(name: Seq<char>) -> Option<StubModel> {
    if is_stub_name(name) {
        Some(stub_named(name))
    } else {
        None
    }
}

/// Whether the module holds a function under `name`. A name that cannot be
/// handed to the backend is one under which no lookup finds anything.
pub open spec fn holds_function(m: llvm::Module, name: Seq<char>) -> bool {
    is_backend_name(name) && declared_functions(m).contains(name)
}

/// What resolving `name` gives in the module `m`: where `m` holds a function
/// under that name, that function with the table's entry under the name;
/// otherwise the name, as missing.
pub open spec fn resolution(m: llvm::Module, name: Seq<char>) -> Result<HandleModel, Seq<char>> {
    if holds_function(m, name) {
        Ok(HandleModel { function: function_named(m, name), descriptor: table_entry(name) })
    } else {
        Err(name)
    }
}

/// Whether `r` is what resolving `name` in `m` owes: a handle that is the
/// resolution, or `MissingStub` with the name.
pub open spec fn resolves(
    m: llvm::Module,
    name: Seq<char>,
    r: Result<StubHandle<'_>, StubError>,
) -> bool {
    match resolution(m, name) {
        Ok(handle) => r is Ok && r->Ok_0@ == handle,
        Err(missing) => r is Err && r->Err_0 is MissingStub && r->Err_0.spec_name() == missing,
    }
}

/// Whether `name` can be handed to the backend: it is not empty and holds
/// no NUL character.
pub fn backend_accepts(name: &str) -> (r: bool)
    ensures
        r == is_backend_name(name@),
{
    let mut chars = name.chars();
    let mut empty = true;
    let ghost mut seen: int = 0;
    loop
        invariant
            chars.obeys_prophetic_iter_laws(),
            chars.decrease() is Some,
            0 <= seen <= name@.len(),
            chars.remaining() == name@.skip(seen),
            empty == (seen == 0),
            forall|j: int| 0 <= j < seen ==> name@[j] != '\0',
        decreases name@.len() - seen,
    {
        match chars.next() {
            None => {
                return !empty;
            },
            Some(c) => {
                if c == '\0' {
                    assert(name@[seen] == '\0');
                    return false;
                }
                proof {
                    assert(name@.skip(seen).drop_first() =~= name@.skip(seen + 1));
                    seen = seen + 1;
                }
                empty = false;
            },
        }
    }
}

/// The function that the module holds under `name`, whoever declared it,
/// with the table's entry under that name where the table has one.
///
/// Fails with `MissingStub` where the module holds no function under the
/// name. The module is left as it is.
pub fn get_stub_function<'a>(m_ctx: &ModuleCtx<'a>, name: &str) -> (r: Result<
    StubHandle<'a>,
    StubError,
>)
    ensures
        resolves(*m_ctx.llvm_module, name@, r),
{
    if !backend_accepts(name) {
        return Err(StubError::MissingStub(name.to_owned()));
    }
    match get_function(m_ctx.llvm_module, name) {
        Some(function) => Ok(StubHandle { function, descriptor: find_stub(name) }),
        None => Err(StubError::MissingStub(name.to_owned())),
    }
}

} // verus!
