//! The artifact emitters: for one parsed service interface they produce the
//! method-descriptor registry, the rewritten trait, the service factory and
//! the client type, as source text whose exact shape the specifications
//! below pin down.

use vstd::prelude::*;
use crate::names::{registry_const_name, snake, spec_registry_const, snake_of};
use crate::schema::{
    spec_vis, vis_prefix, MethodDescriptor, MethodSchema, Param, ParamSchema, ServiceInterfaceDescriptor,
    ServiceSchema, Visibility,
};
use crate::parser::{parse_service, spec_parse};
use crate::schema::GenError;
use vstd::string::{StrSliceExecFns, StringExecFns};

verus! {

/// Attribute lines placed above a declaration: each attribute text followed
/// by a newline, in order, over the first `n` attributes.
pub open spec fn spec_attrs(attrs: Seq<Seq<char>>, n: int) -> Seq<char>
    decreases n,
{
    if n <= 0 {
        Seq::empty()
    } else {
        spec_attrs(attrs, n - 1) + attrs[n - 1] + "\n"@
    }
}

pub open spec fn spec_attrs_all(attrs: Seq<Seq<char>>) -> Seq<char> {
    spec_attrs(attrs, attrs.len() as int)
}

/// The comma-separated type list of the first `n` parameters.
pub open spec fn spec_tuple_types(ps: Seq<ParamSchema>, n: int) -> Seq<char>
    decreases n,
{
    if n <= 0 {
        Seq::empty()
    } else if n == 1 {
        ps[0].ty
    } else {
        spec_tuple_types(ps, n - 1) + ", "@ + ps[n - 1].ty
    }
}

/// The request envelope type: the ordered product of the parameter types,
/// `()` when the method declares no parameters.
pub open spec fn spec_req_type(m: MethodSchema) -> Seq<char> {
    if m.params.len() == 0 {
        "()"@
    } else {
        "("@ + spec_tuple_types(m.params, m.params.len() as int) + ",)"@
    }
}

/// The response envelope type: the declared return type, `()` when none is
/// declared.
pub open spec fn spec_resp_type(m: MethodSchema) -> Seq<char> {
    match m.ret {
        Some(t) => t,
        None => "()"@,
    }
}

/// The receiver exactly as declared.
pub open spec fn spec_receiver(m: MethodSchema) -> Seq<char> {
    if m.by_ref {
        "&mut self"@
    } else {
        "mut self"@
    }
}

/// The return-type suffix of a signature.
pub open spec fn spec_ret_suffix(r: Option<Seq<char>>) -> Seq<char> {
    match r {
        Some(t) => " -> "@ + t,
        None => Seq::empty(),
    }
}

/// The declared-parameter suffix of a signature: `, name: ty` for each of
/// the first `n` parameters.
pub open spec fn spec_params(ps: Seq<ParamSchema>, n: int) -> Seq<char>
    decreases n,
{
    if n <= 0 {
        Seq::empty()
    } else {
        spec_params(ps, n - 1) + ", "@ + ps[n - 1].name + ": "@ + ps[n - 1].ty
    }
}

pub open spec fn spec_params_all(ps: Seq<ParamSchema>) -> Seq<char> {
    spec_params(ps, ps.len() as int)
}

/// The business method, re-emitted unchanged.
pub open spec fn spec_original_method(m: MethodSchema) -> Seq<char> {
    spec_attrs_all(m.attrs) + "fn "@ + m.name + "("@ + spec_receiver(m) + spec_params_all(m.params)
        + ")"@ + spec_ret_suffix(m.ret) + ";\n"@
}

/// The transport-facing counterpart declared next to the business method:
/// same receiver, a call context, the request envelope by value, and a
/// one-shot response sink; no return value.
pub open spec fn spec_grpc_method_decl(m: MethodSchema) -> Seq<char> {
    spec_attrs_all(m.attrs) + "fn "@ + m.name + "_grpc("@ + spec_receiver(m)
        + ", ctx: ::grpcio::RpcContext, req: "@ + spec_req_type(m) + ", sink: ::grpcio::UnarySink<"@
        + spec_resp_type(m) + ">);\n"@
}

/// One registry constant: a unary method descriptor whose wire name is the
/// constant's own identifier and whose two marshallers reference the
/// serialization collaborator's entry points.
pub open spec fn spec_method_declaration(vis: Visibility, service: Seq<char>, m: MethodSchema) -> Seq<
    char,
> {
    spec_vis(vis) + "const "@ + spec_registry_const(service, m.name) + ": ::grpcio::Method<"@
        + spec_req_type(m) + ", "@ + spec_resp_type(m)
        + "> = ::grpcio::Method { ty: ::grpcio::MethodType::Unary, name: \""@
        + spec_registry_const(service, m.name)
        + "\", req_mar: ::grpcio::Marshaller { ser: ::bincode_grpc::bi_codec::ser, de: ::bincode_grpc::bi_codec::de }, resp_mar: ::grpcio::Marshaller { ser: ::bincode_grpc::bi_codec::ser, de: ::bincode_grpc::bi_codec::de } };\n"@
}

/// The registry constants of the first `n` methods, in declaration order.
pub open spec fn spec_method_declarations_upto(
    vis: Visibility,
    service: Seq<char>,
    ms: Seq<MethodSchema>,
    n: int,
) -> Seq<char>
    decreases n,
{
    if n <= 0 {
        Seq::empty()
    } else {
        spec_method_declarations_upto(vis, service, ms, n - 1) + spec_method_declaration(
            vis,
            service,
            ms[n - 1],
        )
    }
}

/// All registry constants of the service.
pub open spec fn spec_method_declarations(s: ServiceSchema) -> Seq<char> {
    spec_method_declarations_upto(s.vis, s.name, s.methods, s.methods.len() as int)
}

pub open spec fn spec_originals_upto(ms: Seq<MethodSchema>, n: int) -> Seq<char>
    decreases n,
{
    if n <= 0 {
        Seq::empty()
    } else {
        spec_originals_upto(ms, n - 1) + spec_original_method(ms[n - 1])
    }
}

pub open spec fn spec_grpc_decls_upto(ms: Seq<MethodSchema>, n: int) -> Seq<char>
    decreases n,
{
    if n <= 0 {
        Seq::empty()
    } else {
        spec_grpc_decls_upto(ms, n - 1) + spec_grpc_method_decl(ms[n - 1])
    }
}

/// The rewritten interface: every business method unchanged, then one
/// transport-facing counterpart per method, in one trait declaration.
pub open spec fn spec_trait_service(s: ServiceSchema) -> Seq<char> {
    spec_attrs_all(s.attrs) + spec_vis(s.vis) + "trait "@ + s.name + " {\n"@ + spec_originals_upto(
        s.methods,
        s.methods.len() as int,
    ) + spec_grpc_decls_upto(s.methods, s.methods.len() as int) + "}\n"@
}

/// One handler registration inside the factory: a fresh clone of the
/// implementation, registered under the method's registry constant,
/// forwarding context, request and sink to the transport-facing method.
pub open spec fn spec_registration(service: Seq<char>, m: MethodSchema) -> Seq<char> {
    "let mut instance = s.clone();\nbuilder = builder.add_unary_handler(&"@ + spec_registry_const(
        service,
        m.name,
    ) + ", move |ctx, req, resp| instance."@ + m.name + "_grpc(ctx, req, resp));\n"@
}

pub open spec fn spec_registrations_upto(service: Seq<char>, ms: Seq<MethodSchema>, n: int) -> Seq<
    char,
>
    decreases n,
{
    if n <= 0 {
        Seq::empty()
    } else {
        spec_registrations_upto(service, ms, n - 1) + spec_registration(service, ms[n - 1])
    }
}

/// The service factory: builds the dispatch table with exactly one handler
/// registration per method, in declaration order.
pub open spec fn spec_create_service(s: ServiceSchema) -> Seq<char> {
    spec_vis(s.vis) + "fn create_"@ + snake_of(s.name) + "<S: "@ + s.name
        + " + Send + Clone + 'static>(s: S) -> ::grpcio::Service {\nlet mut builder = ::grpcio::ServiceBuilder::new();\n"@
        + spec_registrations_upto(s.name, s.methods, s.methods.len() as int)
        + "builder.build()\n}\n"@
}

/// The client type: one transport channel handle.
pub open spec fn spec_client_struct(s: ServiceSchema) -> Seq<char> {
    "#[derive(Clone)]\n"@ + spec_vis(s.vis) + "struct "@ + s.name
        + "Client { client: ::grpcio::Client }\n"@
}

/// Default synchronous client variant: delegates to the with-options
/// variant under default call options.
pub open spec fn spec_client_method(vis: Visibility, m: MethodSchema) -> Seq<char> {
    spec_vis(vis) + "fn "@ + m.name + "(&self, req: &"@ + spec_req_type(m)
        + ") -> ::grpcio::Result<"@ + spec_resp_type(m) + "> { self."@ + m.name
        + "_opt(req, ::grpcio::CallOption::default()) }\n"@
}

/// With-options synchronous client variant: the transport's unary call under
/// the method's registry constant.
pub open spec fn spec_client_method_opt(vis: Visibility, service: Seq<char>, m: MethodSchema) -> Seq<
    char,
> {
    spec_vis(vis) + "fn "@ + m.name + "_opt(&self, req: &"@ + spec_req_type(m)
        + ", opt: ::grpcio::CallOption) -> ::grpcio::Result<"@ + spec_resp_type(m)
        + "> { self.client.unary_call(&"@ + spec_registry_const(service, m.name)
        + ", req, opt) }\n"@
}

/// Default asynchronous client variant: delegates to the with-options
/// asynchronous variant under default call options.
pub open spec fn spec_client_method_async(vis: Visibility, m: MethodSchema) -> Seq<char> {
    spec_vis(vis) + "fn "@ + m.name + "_async(&self, req: &"@ + spec_req_type(m)
        + ") -> ::grpcio::Result<::grpcio::ClientSStreamReceiver<"@ + spec_resp_type(m)
        + ">> { self."@ + m.name + "_async_opt(req, ::grpcio::CallOption::default()) }\n"@
}

/// With-options asynchronous client variant: the transport's streaming
/// receive under the method's registry constant.
pub open spec fn spec_client_method_async_opt(
    vis: Visibility,
    service: Seq<char>,
    m: MethodSchema,
) -> Seq<char> {
    spec_vis(vis) + "fn "@ + m.name + "_async_opt(&self, req: &"@ + spec_req_type(m)
        + ", opt: ::grpcio::CallOption) -> ::grpcio::Result<::grpcio::ClientSStreamReceiver<"@
        + spec_resp_type(m) + ">> { self.client.server_streaming(&"@ + spec_registry_const(
        service,
        m.name,
    ) + ", req, opt) }\n"@
}

/// The four client variants of one method, in order.
pub open spec fn spec_client_group(vis: Visibility, service: Seq<char>, m: MethodSchema) -> Seq<
    char,
> {
    spec_client_method(vis, m) + spec_client_method_opt(vis, service, m) + spec_client_method_async(
        vis,
        m,
    ) + spec_client_method_async_opt(vis, service, m)
}

pub open spec fn spec_client_groups_upto(
    vis: Visibility,
    service: Seq<char>,
    ms: Seq<MethodSchema>,
    n: int,
) -> Seq<char>
    decreases n,
{
    if n <= 0 {
        Seq::empty()
    } else {
        spec_client_groups_upto(vis, service, ms, n - 1) + spec_client_group(
            vis,
            service,
            ms[n - 1],
        )
    }
}

/// The client impl block: a constructor wrapping a channel, then the four
/// calling variants of every method.
pub open spec fn spec_client_impl(s: ServiceSchema) -> Seq<char> {
    "impl "@ + s.name + "Client {\n"@ + spec_vis(s.vis)
        + "fn new(channel: ::grpcio::Channel) -> Self { Self { client: ::grpcio::Client::new(channel) } }\n"@
        + spec_client_groups_upto(s.vis, s.name, s.methods, s.methods.len() as int) + "}\n"@
}

/// Everything emitted for one interface declaration, in emission order:
/// registry constants, rewritten trait, service factory, client struct,
/// client impl.
pub open spec fn spec_service_artifacts(s: ServiceSchema) -> Seq<char> {
    spec_method_declarations(s) + spec_trait_service(s) + spec_create_service(s)
        + spec_client_struct(s) + spec_client_impl(s)
}

fn attrs_text(attrs: &Vec<String>) -> (r: String)
    ensures
        r@ == spec_attrs_all(attrs@.map_values(|a: String| a@)),
{
    let ghost gattrs = attrs@.map_values(|a: String| a@);
    let mut out = String::new();
    let mut i: usize = 0;
    while i < attrs.len()
        invariant
            i <= attrs@.len(),
            gattrs == attrs@.map_values(|a: String| a@),
            out@ == spec_attrs(gattrs, i as int),
        decreases attrs@.len() - i,
    {
        out.append(attrs[i].as_str());
        out.append("\n");
        proof {
            assert(gattrs[i as int] == attrs@[i as int]@);
        }
        i = i + 1;
    }
    out
}

fn params_text(params: &Vec<Param>) -> (r: String)
    ensures
        r@ == spec_params_all(params@.map_values(|p: Param| p@)),
{
    let ghost gp = params@.map_values(|p: Param| p@);
    let mut out = String::new();
    let mut i: usize = 0;
    while i < params.len()
        invariant
            i <= params@.len(),
            gp == params@.map_values(|p: Param| p@),
            out@ == spec_params(gp, i as int),
        decreases params@.len() - i,
    {
        out.append(", ");
        out.append(params[i].name.as_str());
        out.append(": ");
        out.append(params[i].ty.as_str());
        proof {
            assert(gp[i as int] == params@[i as int]@);
            assert(out@ =~= spec_params(gp, i as int + 1));
        }
        i = i + 1;
    }
    out
}

/// The request envelope type text for one method.
pub fn req_type(m: &MethodDescriptor) -> (r: String)
    ensures
        r@ == spec_req_type(m@),
        m@.params.len() == 0 ==> r@ == "()"@,
{
    let n = m.params.len();
    if n == 0 {
        String::from_str("()")
    } else {
        let ghost gp = m.params@.map_values(|p: Param| p@);
        let mut out = String::from_str("(");
        let mut i: usize = 0;
        while i < n
            invariant
                n == m.params@.len(),
                i <= n,
                gp == m.params@.map_values(|p: Param| p@),
                out@ == "("@ + spec_tuple_types(gp, i as int),
            decreases n - i,
        {
            if i > 0 {
                out.append(", ");
            }
            out.append(m.params[i].ty.as_str());
            proof {
                assert(gp[i as int] == m.params@[i as int]@);
                assert(out@ =~= "("@ + spec_tuple_types(gp, i as int + 1));
            }
            i = i + 1;
        }
        out.append(",)");
        proof {
            assert(out@ =~= spec_req_type(m@));
        }
        out
    }
}

/// The response envelope type text for one method.
pub fn resp_type(m: &MethodDescriptor) -> (r: String)
    ensures
        r@ == spec_resp_type(m@),
        m@.ret is None ==> r@ == "()"@,
{
    match &m.ret {
        Some(t) => String::from_str(t.as_str()),
        None => String::from_str("()"),
    }
}

fn receiver_text(m: &MethodDescriptor) -> (r: &'static str)
    ensures
        r@ == spec_receiver(m@),
{
    if m.by_ref {
        "&mut self"
    } else {
        "mut self"
    }
}

/// The unchanged business-method declaration.
pub fn original_method(m: &MethodDescriptor) -> (r: String)
    ensures
        r@ == spec_original_method(m@),
{
    let mut out = attrs_text(&m.attrs);
    out.append("fn ");
    out.append(m.name.as_str());
    out.append("(");
    out.append(receiver_text(m));
    let p = params_text(&m.params);
    out.append(p.as_str());
    out.append(")");
    match &m.ret {
        Some(t) => {
            out.append(" -> ");
            out.append(t.as_str());
        },
        None => {},
    }
    out.append(";\n");
    proof {
        assert(out@ =~= spec_original_method(m@));
    }
    out
}

/// The transport-facing method declaration added to the trait.
pub fn grpc_method_decl(m: &MethodDescriptor) -> (r: String)
    ensures
        r@ == spec_grpc_method_decl(m@),
{
    let mut out = attrs_text(&m.attrs);
    out.append("fn ");
    out.append(m.name.as_str());
    out.append("_grpc(");
    out.append(receiver_text(m));
    out.append(", ctx: ::grpcio::RpcContext, req: ");
    let rq = req_type(m);
    out.append(rq.as_str());
    out.append(", sink: ::grpcio::UnarySink<");
    let rp = resp_type(m);
    out.append(rp.as_str());
    out.append(">);\n");
    proof {
        assert(out@ =~= spec_grpc_method_decl(m@));
    }
    out
}

/// One registry constant declaration.
pub fn method_declaration(vis: Visibility, service: &str, m: &MethodDescriptor) -> (r: String)
    ensures
        r@ == spec_method_declaration(vis, service@, m@),
{
    let c = registry_const_name(service, m.name.as_str());
    let mut out = String::from_str(vis_prefix(vis));
    out.append("const ");
    out.append(c.as_str());
    out.append(": ::grpcio::Method<");
    let rq = req_type(m);
    out.append(rq.as_str());
    out.append(", ");
    let rp = resp_type(m);
    out.append(rp.as_str());
    out.append("> = ::grpcio::Method { ty: ::grpcio::MethodType::Unary, name: \"");
    out.append(c.as_str());
    out.append(
        "\", req_mar: ::grpcio::Marshaller { ser: ::bincode_grpc::bi_codec::ser, de: ::bincode_grpc::bi_codec::de }, resp_mar: ::grpcio::Marshaller { ser: ::bincode_grpc::bi_codec::ser, de: ::bincode_grpc::bi_codec::de } };\n",
    );
    proof {
        assert(out@ =~= spec_method_declaration(vis, service@, m@));
    }
    out
}

/// All registry constants of the service, in declaration order.
pub fn method_declarations(svc: &ServiceInterfaceDescriptor) -> (r: String)
    ensures
        r@ == spec_method_declarations(svc@),
{
    let ghost gms = svc.methods@.map_values(|m: MethodDescriptor| m@);
    let mut out = String::new();
    let mut i: usize = 0;
    while i < svc.methods.len()
        invariant
            i <= svc.methods@.len(),
            gms == svc.methods@.map_values(|m: MethodDescriptor| m@),
            out@ == spec_method_declarations_upto(svc.vis, svc.name@, gms, i as int),
        decreases svc.methods@.len() - i,
    {
        let d = method_declaration(svc.vis, svc.name.as_str(), &svc.methods[i]);
        out.append(d.as_str());
        proof {
            assert(gms[i as int] == svc.methods@[i as int]@);
        }
        i = i + 1;
    }
    out
}

/// The rewritten trait declaration.
pub fn trait_service(svc: &ServiceInterfaceDescriptor) -> (r: String)
    ensures
        r@ == spec_trait_service(svc@),
{
    let ghost gms = svc.methods@.map_values(|m: MethodDescriptor| m@);
    let mut out = attrs_text(&svc.attrs);
    out.append(vis_prefix(svc.vis));
    out.append("trait ");
    out.append(svc.name.as_str());
    out.append(" {\n");
    let ghost head = out@;
    let mut i: usize = 0;
    while i < svc.methods.len()
        invariant
            i <= svc.methods@.len(),
            gms == svc.methods@.map_values(|m: MethodDescriptor| m@),
            out@ == head + spec_originals_upto(gms, i as int),
        decreases svc.methods@.len() - i,
    {
        let d = original_method(&svc.methods[i]);
        out.append(d.as_str());
        proof {
            assert(gms[i as int] == svc.methods@[i as int]@);
            assert(out@ =~= head + spec_originals_upto(gms, i as int + 1));
        }
        i = i + 1;
    }
    let ghost mid = out@;
    let mut j: usize = 0;
    while j < svc.methods.len()
        invariant
            j <= svc.methods@.len(),
            gms == svc.methods@.map_values(|m: MethodDescriptor| m@),
            out@ == mid + spec_grpc_decls_upto(gms, j as int),
        decreases svc.methods@.len() - j,
    {
        let d = grpc_method_decl(&svc.methods[j]);
        out.append(d.as_str());
        proof {
            assert(gms[j as int] == svc.methods@[j as int]@);
            assert(out@ =~= mid + spec_grpc_decls_upto(gms, j as int + 1));
        }
        j = j + 1;
    }
    out.append("}\n");
    proof {
        assert(out@ =~= spec_trait_service(svc@));
    }
    out
}

/// The service factory function: one handler registration per method,
/// registered exactly once, in declaration order.
pub fn create_service(svc: &ServiceInterfaceDescriptor) -> (r: String)
    ensures
        r@ == spec_create_service(svc@),
{
    let ghost gms = svc.methods@.map_values(|m: MethodDescriptor| m@);
    let mut out = String::from_str(vis_prefix(svc.vis));
    out.append("fn create_");
    let sn = snake(svc.name.as_str());
    out.append(sn.as_str());
    out.append("<S: ");
    out.append(svc.name.as_str());
    out.append(
        " + Send + Clone + 'static>(s: S) -> ::grpcio::Service {\nlet mut builder = ::grpcio::ServiceBuilder::new();\n",
    );
    let ghost head = out@;
    let mut i: usize = 0;
    while i < svc.methods.len()
        invariant
            i <= svc.methods@.len(),
            gms == svc.methods@.map_values(|m: MethodDescriptor| m@),
            out@ == head + spec_registrations_upto(svc.name@, gms, i as int),
        decreases svc.methods@.len() - i,
    {
        out.append("let mut instance = s.clone();\nbuilder = builder.add_unary_handler(&");
        let c = registry_const_name(svc.name.as_str(), svc.methods[i].name.as_str());
        out.append(c.as_str());
        out.append(", move |ctx, req, resp| instance.");
        out.append(svc.methods[i].name.as_str());
        out.append("_grpc(ctx, req, resp));\n");
        proof {
            assert(gms[i as int] == svc.methods@[i as int]@);
            assert(out@ =~= head + spec_registrations_upto(svc.name@, gms, i as int + 1));
        }
        i = i + 1;
    }
    out.append("builder.build()\n}\n");
    proof {
        assert(out@ =~= spec_create_service(svc@));
    }
    out
}

/// The client struct declaration.
pub fn client_struct(svc: &ServiceInterfaceDescriptor) -> (r: String)
    ensures
        r@ == spec_client_struct(svc@),
{
    let mut out = String::from_str("#[derive(Clone)]\n");
    out.append(vis_prefix(svc.vis));
    out.append("struct ");
    out.append(svc.name.as_str());
    out.append("Client { client: ::grpcio::Client }\n");
    proof {
        assert(out@ =~= spec_client_struct(svc@));
    }
    out
}

/// Default synchronous client variant.
pub fn client_method(vis: Visibility, m: &MethodDescriptor) -> (r: String)
    ensures
        r@ == spec_client_method(vis, m@),
{
    let mut out = String::from_str(vis_prefix(vis));
    out.append("fn ");
    out.append(m.name.as_str());
    out.append("(&self, req: &");
    let rq = req_type(m);
    out.append(rq.as_str());
    out.append(") -> ::grpcio::Result<");
    let rp = resp_type(m);
    out.append(rp.as_str());
    out.append("> { self.");
    out.append(m.name.as_str());
    out.append("_opt(req, ::grpcio::CallOption::default()) }\n");
    proof {
        assert(out@ =~= spec_client_method(vis, m@));
    }
    out
}

/// With-options synchronous client variant.
pub fn client_method_opt(vis: Visibility, service: &str, m: &MethodDescriptor) -> (r: String)
    ensures
        r@ == spec_client_method_opt(vis, service@, m@),
{
    let mut out = String::from_str(vis_prefix(vis));
    out.append("fn ");
    out.append(m.name.as_str());
    out.append("_opt(&self, req: &");
    let rq = req_type(m);
    out.append(rq.as_str());
    out.append(", opt: ::grpcio::CallOption) -> ::grpcio::Result<");
    let rp = resp_type(m);
    out.append(rp.as_str());
    out.append("> { self.client.unary_call(&");
    let c = registry_const_name(service, m.name.as_str());
    out.append(c.as_str());
    out.append(", req, opt) }\n");
    proof {
        assert(out@ =~= spec_client_method_opt(vis, service@, m@));
    }
    out
}

/// Default asynchronous client variant.
pub fn client_method_async(vis: Visibility, m: &MethodDescriptor) -> (r: String)
    ensures
        r@ == spec_client_method_async(vis, m@),
{
    let mut out = String::from_str(vis_prefix(vis));
    out.append("fn ");
    out.append(m.name.as_str());
    out.append("_async(&self, req: &");
    let rq = req_type(m);
    out.append(rq.as_str());
    out.append(") -> ::grpcio::Result<::grpcio::ClientSStreamReceiver<");
    let rp = resp_type(m);
    out.append(rp.as_str());
    out.append(">> { self.");
    out.append(m.name.as_str());
    out.append("_async_opt(req, ::grpcio::CallOption::default()) }\n");
    proof {
        assert(out@ =~= spec_client_method_async(vis, m@));
    }
    out
}

/// With-options asynchronous client variant.
pub fn client_method_async_opt(vis: Visibility, service: &str, m: &MethodDescriptor) -> (r: String)
    ensures
        r@ == spec_client_method_async_opt(vis, service@, m@),
{
    let mut out = String::from_str(vis_prefix(vis));
    out.append("fn ");
    out.append(m.name.as_str());
    out.append("_async_opt(&self, req: &");
    let rq = req_type(m);
    out.append(rq.as_str());
    out.append(", opt: ::grpcio::CallOption) -> ::grpcio::Result<::grpcio::ClientSStreamReceiver<");
    let rp = resp_type(m);
    out.append(rp.as_str());
    out.append(">> { self.client.server_streaming(&");
    let c = registry_const_name(service, m.name.as_str());
    out.append(c.as_str());
    out.append(", req, opt) }\n");
    proof {
        assert(out@ =~= spec_client_method_async_opt(vis, service@, m@));
    }
    out
}

/// The client impl block with all four variants of every method.
pub fn client_impl(svc: &ServiceInterfaceDescriptor) -> (r: String)
    ensures
        r@ == spec_client_impl(svc@),
{
    let ghost gms = svc.methods@.map_values(|m: MethodDescriptor| m@);
    let mut out = String::from_str("impl ");
    out.append(svc.name.as_str());
    out.append("Client {\n");
    out.append(vis_prefix(svc.vis));
    out.append(
        "fn new(channel: ::grpcio::Channel) -> Self { Self { client: ::grpcio::Client::new(channel) } }\n",
    );
    let ghost head = out@;
    let mut i: usize = 0;
    while i < svc.methods.len()
        invariant
            i <= svc.methods@.len(),
            gms == svc.methods@.map_values(|m: MethodDescriptor| m@),
            out@ == head + spec_client_groups_upto(svc.vis, svc.name@, gms, i as int),
        decreases svc.methods@.len() - i,
    {
        let a = client_method(svc.vis, &svc.methods[i]);
        out.append(a.as_str());
        let b = client_method_opt(svc.vis, svc.name.as_str(), &svc.methods[i]);
        out.append(b.as_str());
        let c = client_method_async(svc.vis, &svc.methods[i]);
        out.append(c.as_str());
        let d = client_method_async_opt(svc.vis, svc.name.as_str(), &svc.methods[i]);
        out.append(d.as_str());
        proof {
            assert(gms[i as int] == svc.methods@[i as int]@);
            assert(out@ =~= head + spec_client_groups_upto(svc.vis, svc.name@, gms, i as int + 1));
        }
        i = i + 1;
    }
    out.append("}\n");
    proof {
        assert(out@ =~= spec_client_impl(svc@));
    }
    out
}

/// Every artifact emitted for one interface declaration, in emission order.
pub fn service_artifacts(svc: &ServiceInterfaceDescriptor) -> (r: String)
    ensures
        r@ == spec_service_artifacts(svc@),
{
    let mut out = method_declarations(svc);
    let t = trait_service(svc);
    out.append(t.as_str());
    let c = create_service(svc);
    out.append(c.as_str());
    let s = client_struct(svc);
    out.append(s.as_str());
    let ci = client_impl(svc);
    out.append(ci.as_str());
    out
}

/// Expands one annotated interface declaration into the five generated
/// artifacts, in emission order.  Fails exactly when the declaration does
/// not parse as a well-shaped, collision-free interface.
pub fn service(src: &str) -> (r: Result<String, GenError>)
    ensures
        match r {
            Ok(out) => spec_parse(src@) is Some && out@ == spec_service_artifacts(
                spec_parse(src@)->Some_0,
            ),
            Err(_) => spec_parse(src@) is None,
        },
{
    match parse_service(src) {
        Ok(svc) => Ok(service_artifacts(&svc)),
        Err(e) => Err(e),
    }
}

} // verus!
