//! The dispatch-table plan: the runtime pairing of registry descriptors
//! with the transport-facing methods their handlers forward to, and the
//! routing guarantees the factory's registrations enjoy.

use vstd::prelude::*;
use crate::names::{
    grpc_method_name, lemma_registry_const_distinct_methods, registry_const_name,
    spec_registry_const,
};
use crate::schema::{wf_service, MethodDescriptor, ServiceInterfaceDescriptor, ServiceSchema};
use crate::text::str_eq;
use vstd::string::StrSliceExecFns;

verus! {

/// One dispatch-table entry: a registry descriptor's wire name, paired with
/// the transport-facing method its handler forwards to on the cloned
/// implementation instance.
pub struct DispatchTableEntry {
    pub wire_name: String,
    pub handler: String,
}

/// Mathematical shape of a dispatch-table entry.
#[verifier::ext_equal]
pub ghost struct DispatchEntrySchema {
    pub wire_name: Seq<char>,
    pub handler: Seq<char>,
}

impl View for DispatchTableEntry {
    type V = DispatchEntrySchema;

    open spec fn view(&self) -> DispatchEntrySchema {
        DispatchEntrySchema { wire_name: self.wire_name@, handler: self.handler@ }
    }
}

/// The entry the factory registers for method `i` of the service.
pub open spec fn spec_dispatch_entry(s: ServiceSchema, i: int) -> DispatchEntrySchema {
    DispatchEntrySchema {
        wire_name: spec_registry_const(s.name, s.methods[i].name),
        handler: s.methods[i].name + "_grpc"@,
    }
}

/// The dispatch plan the factory builds: exactly one entry per method,
/// registered once, in declaration order, each forwarding to that method's
/// transport-facing counterpart.
pub fn dispatch_plan(svc: &ServiceInterfaceDescriptor) -> (r: Vec<DispatchTableEntry>)
    ensures
        r@.len() == svc@.methods.len(),
        forall|i: int| 0 <= i < r@.len() ==> #[trigger] r@[i]@ == spec_dispatch_entry(svc@, i),
{
    let mut plan: Vec<DispatchTableEntry> = Vec::new();
    let mut i: usize = 0;
    while i < svc.methods.len()
        invariant
            i <= svc.methods@.len(),
            plan@.len() == i,
            forall|k: int| 0 <= k < i ==> #[trigger] plan@[k]@ == spec_dispatch_entry(svc@, k),
        decreases svc.methods@.len() - i,
    {
        let wire_name = registry_const_name(svc.name.as_str(), svc.methods[i].name.as_str());
        let handler = grpc_method_name(svc.methods[i].name.as_str());
        proof {
            assert(svc@.methods[i as int] == svc.methods@[i as int]@);
        }
        plan.push(DispatchTableEntry { wire_name, handler });
        i = i + 1;
    }
    plan
}

/// Routes one inbound wire name to the first matching entry.
pub fn route(plan: &Vec<DispatchTableEntry>, wire: &str) -> (r: Option<usize>)
    ensures
        match r {
            Some(i) => i < plan@.len() && plan@[i as int]@.wire_name == wire@ && forall|j: int|
                0 <= j < i ==> (#[trigger] plan@[j]@).wire_name != wire@,
            None => forall|j: int| 0 <= j < plan@.len() ==> (#[trigger] plan@[j]@).wire_name != wire@,
        },
{
    let mut i: usize = 0;
    while i < plan.len()
        invariant
            i <= plan@.len(),
            forall|j: int| 0 <= j < i ==> (#[trigger] plan@[j]@).wire_name != wire@,
        decreases plan@.len() - i,
    {
        if str_eq(plan[i].wire_name.as_str(), wire) {
            return Some(i);
        }
        i = i + 1;
    }
    None
}


/// For an interface with N methods the factory emits exactly N registry
/// constants — [`dispatch_plan`] returns one entry per method — and in a
/// well-formed service each carries a distinct name within that service's
/// namespace.
pub proof fn lemma_registry_names_distinct(s: ServiceSchema)
    requires
        wf_service(s),
    ensures
        forall|i: int, j: int|
            0 <= i < j < s.methods.len() ==> spec_registry_const(s.name, s.methods[i].name)
                != spec_registry_const(s.name, s.methods[j].name),
{
    assert forall|i: int, j: int|
        0 <= i < j < s.methods.len() implies spec_registry_const(s.name, s.methods[i].name)
        != spec_registry_const(s.name, s.methods[j].name) by {
        lemma_registry_const_distinct_methods(s.name, s.methods[i].name, s.methods[j].name);
    }
}

/// Dispatch correctness: in a well-formed service's plan, the registry
/// constant of method `i` matches entry `j`'s wire name exactly when
/// `j == i` — an inbound request bearing that name selects exactly one
/// handler, the one forwarding to method `i`'s transport-facing
/// counterpart.
pub proof fn lemma_dispatch_unique(s: ServiceSchema, i: int, j: int)
    requires
        wf_service(s),
        0 <= i < s.methods.len(),
        0 <= j < s.methods.len(),
    ensures
        (spec_dispatch_entry(s, j).wire_name == spec_registry_const(s.name, s.methods[i].name))
            <==> (j == i),
{
    if i != j {
        lemma_registry_const_distinct_methods(s.name, s.methods[i].name, s.methods[j].name);
    }
}

} // verus!
