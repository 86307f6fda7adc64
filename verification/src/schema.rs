//! The parsed shape of one annotated service interface declaration: the
//! service-level metadata and the ordered list of method descriptors that
//! every emitter consumes.

use vstd::prelude::*;
use crate::text::{is_digit, is_ident_char};
use crate::names::shouty_snake_of;

verus! {

/// A generation-time fatal error: generation aborts, no partial output is
/// produced.
#[derive(Clone, Copy, Debug, PartialEq, Eq, Structural)]
pub enum GenError {
    /// An attribute's brackets never close.
    UnterminatedAttribute,
    /// The declaration does not match the expected shape.
    MalformedDeclaration,
    /// A method declares no receiver.
    MissingReceiver,
    /// A receiver that does not request exclusive mutable access.
    NonMutReceiver,
    /// More than one receiver in one method.
    DuplicateReceiver,
    /// A parameter bound by a destructuring pattern instead of a single
    /// identifier.
    PatternParameter,
    /// Two methods whose registry constants would share one name.
    RegistryCollision,
}

/// Visibility of the declared interface, carried onto every emitted artifact.
#[derive(Clone, Copy, Debug, PartialEq, Eq, Structural)]
pub enum Visibility {
    Private,
    Public,
    PubCrate,
}

/// The visibility prefix placed before an emitted declaration.
pub open spec fn spec_vis(v: Visibility) -> Seq<char> {
    match v {
        Visibility::Private => Seq::empty(),
        Visibility::Public => "pub "@,
        Visibility::PubCrate => "pub(crate) "@,
    }
}

pub fn vis_prefix(v: Visibility) -> (r: &'static str)
    ensures
        r@ == spec_vis(v),
{
    proof {
        reveal_strlit("");
        assert(""@ =~= Seq::<char>::empty());
    }
    match v {
        Visibility::Private => "",
        Visibility::Public => "pub ",
        Visibility::PubCrate => "pub(crate) ",
    }
}

/// One declared parameter: a single binding identifier and its type text.
pub struct Param {
    pub name: String,
    pub ty: String,
}

/// Mathematical shape of a parameter.
#[verifier::ext_equal]
pub ghost struct ParamSchema {
    pub name: Seq<char>,
    pub ty: Seq<char>,
}

impl View for Param {
    type V = ParamSchema;

    open spec fn view(&self) -> ParamSchema {
        ParamSchema { name: self.name@, ty: self.ty@ }
    }
}

/// One RPC method: attributes, name, ordered parameters, optional return
/// type, and the form of its receiver.  The receiver always requests
/// exclusive mutable access; `by_ref` records whether it was written
/// `&mut self` (true) or `mut self` (false).
pub struct MethodDescriptor {
    pub attrs: Vec<String>,
    pub name: String,
    pub params: Vec<Param>,
    pub ret: Option<String>,
    pub by_ref: bool,
}

/// Mathematical shape of a method descriptor.
#[verifier::ext_equal]
pub ghost struct MethodSchema {
    pub attrs: Seq<Seq<char>>,
    pub name: Seq<char>,
    pub params: Seq<ParamSchema>,
    pub ret: Option<Seq<char>>,
    pub by_ref: bool,
}

impl View for MethodDescriptor {
    type V = MethodSchema;

    open spec fn view(&self) -> MethodSchema {
        MethodSchema {
            attrs: self.attrs@.map_values(|a: String| a@),
            name: self.name@,
            params: self.params@.map_values(|p: Param| p@),
            ret: match self.ret {
                Some(t) => Some(t@),
                None => None,
            },
            by_ref: self.by_ref,
        }
    }
}

/// The parsed schema for one RPC-capable interface.
pub struct ServiceInterfaceDescriptor {
    pub attrs: Vec<String>,
    pub vis: Visibility,
    pub name: String,
    pub methods: Vec<MethodDescriptor>,
}

/// Mathematical shape of a service interface descriptor.
#[verifier::ext_equal]
pub ghost struct ServiceSchema {
    pub attrs: Seq<Seq<char>>,
    pub vis: Visibility,
    pub name: Seq<char>,
    pub methods: Seq<MethodSchema>,
}

impl View for ServiceInterfaceDescriptor {
    type V = ServiceSchema;

    open spec fn view(&self) -> ServiceSchema {
        ServiceSchema {
            attrs: self.attrs@.map_values(|a: String| a@),
            vis: self.vis,
            name: self.name@,
            methods: self.methods@.map_values(|m: MethodDescriptor| m@),
        }
    }
}

/// A usable identifier: nonempty, made of identifier characters, not
/// starting with a digit.
pub open spec fn wf_ident(s: Seq<char>) -> bool {
    &&& s.len() > 0
    &&& !is_digit(s[0])
    &&& forall|i: int| 0 <= i < s.len() ==> is_ident_char(#[trigger] s[i])
}

/// A well-formed method: identifier name, identifier parameter names,
/// nonempty type texts.
pub open spec fn wf_method(m: MethodSchema) -> bool {
    &&& wf_ident(m.name)
    &&& forall|i: int|
        0 <= i < m.params.len() ==> wf_ident(#[trigger] m.params[i].name)
            && m.params[i].ty.len() > 0
    &&& match m.ret {
        Some(t) => t.len() > 0,
        None => true,
    }
}

/// A well-formed service: identifier name, well-formed methods, and
/// registry-collision-free method names (no two methods share an
/// upper-snake form, so no two registry constants share a name).
pub open spec fn wf_service(s: ServiceSchema) -> bool {
    &&& wf_ident(s.name)
    &&& forall|i: int| 0 <= i < s.methods.len() ==> wf_method(#[trigger] s.methods[i])
    &&& forall|i: int, j: int|
        0 <= i < j < s.methods.len() ==> shouty_snake_of(s.methods[i].name) != shouty_snake_of(
            s.methods[j].name,
        )
}

} // verus!
