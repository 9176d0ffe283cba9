//! Primitive types, signatures and stub descriptors.

use vstd::prelude::*;

verus! {

/// A primitive type of the calling convention between generated code and
/// the runtime library.
#[derive(Clone, Copy, PartialEq, Eq, Structural, Debug, Hash)]
pub enum PrimType {
    /// Unsigned 32-bit integer.
    U32,
    /// Unsigned 64-bit integer.
    U64,
    /// Signed 32-bit integer.
    I32,
    /// Signed 64-bit integer.
    I64,
    /// 32-bit IEEE float.
    F32,
    /// 64-bit IEEE float.
    F64,
    /// Opaque pointer to bytes.
    Ptr,
    /// Boolean flag.
    Bool,
    /// No value.
    Void,
}

/// What a signature is: the parameter types in order, and the return type.
pub struct SignatureModel {
    pub params: Seq<PrimType>,
    pub ret: PrimType,
}

/// The parameter types of a function, in order, and its return type.
#[derive(Clone, PartialEq, Eq, Debug)]
pub struct TypeSignature {
    pub params: Vec<PrimType>,
    pub ret: PrimType,
}

impl View for TypeSignature {
    type V = SignatureModel;

    open spec fn view(&self) -> SignatureModel {
        SignatureModel { params: self.params@, ret: self.ret }
    }
}

/// What a stub descriptor is: a name and a signature.
pub struct StubModel {
    pub name: Seq<char>,
    pub signature: SignatureModel,
}

/// One runtime function: its symbolic name and its signature.
#[derive(Clone, PartialEq, Eq, Debug)]
pub struct StubDescriptor {
    pub name: String,
    pub signature: TypeSignature,
}

impl View for StubDescriptor {
    type V = StubModel;

    open spec fn view(&self) -> StubModel {
        StubModel { name: self.name@, signature: self.signature@ }
    }
}

impl StubDescriptor {
    /// The descriptor of the function `name` that takes `params` and
    /// returns `ret`.
    pub fn new(name: &str, params: Vec<PrimType>, ret: PrimType) -> (d: StubDescriptor)
        ensures
            d@.name == name@,
            d@.signature.params == params@,
            d@.signature.ret == ret,
    {
        StubDescriptor { name: name.to_owned(), signature: TypeSignature { params, ret } }
    }
}

/// What a list of descriptors is: the list of what each of them is.
pub open spec fn descriptors_view(table: Seq<StubDescriptor>) -> Seq<StubModel> {
    table.map_values(|d: StubDescriptor| d@)
}

} // verus!
