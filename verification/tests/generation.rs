use bincode_grpc::dispatch::{dispatch_plan, route};
use bincode_grpc::emit::{
    method_declaration, method_declarations, req_type, resp_type, service,
};
use bincode_grpc::names::{
    async_method_name, async_opt_method_name, client_type_name, create_fn_name, grpc_method_name,
    opt_method_name, registry_const_name, shouty_snake, snake,
};
use bincode_grpc::parser::parse_service;
use bincode_grpc::schema::Visibility;

#[test]
fn shouty_snake_of_camel_case() {
    assert_eq!(shouty_snake("TestService").as_str(), "TEST_SERVICE");
    assert_eq!(shouty_snake("Greeter").as_str(), "GREETER");
    assert_eq!(shouty_snake("say_hello").as_str(), "SAY_HELLO");
    assert_eq!(shouty_snake("rpc_method1").as_str(), "RPC_METHOD1");
    assert_eq!(shouty_snake("XMLHttpRequest").as_str(), "XML_HTTP_REQUEST");
}

#[test]
fn snake_of_camel_case() {
    assert_eq!(snake("TestService").as_str(), "test_service");
    assert_eq!(snake("Greeter").as_str(), "greeter");
    assert_eq!(snake("say_hello").as_str(), "say_hello");
}

#[test]
fn derived_identifiers() {
    assert_eq!(
        registry_const_name("Greeter", "say_hello").as_str(),
        "GREETER_METHOD_SAY_HELLO"
    );
    assert_eq!(grpc_method_name("say_hello").as_str(), "say_hello_grpc");
    assert_eq!(opt_method_name("say_hello").as_str(), "say_hello_opt");
    assert_eq!(async_method_name("say_hello").as_str(), "say_hello_async");
    assert_eq!(
        async_opt_method_name("say_hello").as_str(),
        "say_hello_async_opt"
    );
    assert_eq!(create_fn_name("Greeter").as_str(), "create_greeter");
    assert_eq!(client_type_name("Greeter").as_str(), "GreeterClient");
}

#[test]
fn greeter_scenario() {
    let src = "pub trait Greeter { fn say_hello(&mut self, request: HelloRequest) -> HelloReply; }";
    let out = service(src).unwrap();
    assert!(out.contains("GREETER_METHOD_SAY_HELLO"));
    assert!(out.contains("pub const GREETER_METHOD_SAY_HELLO: ::grpcio::Method<(HelloRequest,), HelloReply>"));
    assert!(out.contains("name: \"GREETER_METHOD_SAY_HELLO\""));
    assert!(out.contains("pub trait Greeter {"));
    assert!(out.contains("fn say_hello(&mut self, request: HelloRequest) -> HelloReply;"));
    assert!(out.contains("fn say_hello_grpc(&mut self, ctx: ::grpcio::RpcContext, req: (HelloRequest,), sink: ::grpcio::UnarySink<HelloReply>);"));
    assert!(out.contains("pub fn create_greeter<S: Greeter + Send + Clone + 'static>(s: S) -> ::grpcio::Service {"));
    assert!(out.contains("builder = builder.add_unary_handler(&GREETER_METHOD_SAY_HELLO, move |ctx, req, resp| instance.say_hello_grpc(ctx, req, resp));"));
    assert!(out.contains("pub struct GreeterClient { client: ::grpcio::Client }"));
    assert!(out.contains("pub fn say_hello(&self, req: &(HelloRequest,)) -> ::grpcio::Result<HelloReply> { self.say_hello_opt(req, ::grpcio::CallOption::default()) }"));
    assert!(out.contains("pub fn say_hello_opt(&self, req: &(HelloRequest,), opt: ::grpcio::CallOption) -> ::grpcio::Result<HelloReply> { self.client.unary_call(&GREETER_METHOD_SAY_HELLO, req, opt) }"));
    assert!(out.contains("pub fn say_hello_async(&self, req: &(HelloRequest,)) -> ::grpcio::Result<::grpcio::ClientSStreamReceiver<HelloReply>> { self.say_hello_async_opt(req, ::grpcio::CallOption::default()) }"));
    assert!(out.contains("pub fn say_hello_async_opt(&self, req: &(HelloRequest,), opt: ::grpcio::CallOption) -> ::grpcio::Result<::grpcio::ClientSStreamReceiver<HelloReply>> { self.client.server_streaming(&GREETER_METHOD_SAY_HELLO, req, opt) }"));

    let svc = parse_service(src).unwrap();
    assert_eq!(svc.name.as_str(), "Greeter");
    assert_eq!(svc.methods.len(), 1);
    let plan = dispatch_plan(&svc);
    assert_eq!(plan.len(), 1);
    assert_eq!(plan[0].wire_name.as_str(), "GREETER_METHOD_SAY_HELLO");
    assert_eq!(plan[0].handler.as_str(), "say_hello_grpc");
}

#[test]
fn one_registry_constant_per_method() {
    let src = "trait TestService { fn rpc_method1(&mut self, input: Input) -> Output; fn rpc_method2(&mut self, input: Input) -> Output; fn rpc_method3(&mut self, forward_id: u64, forward_only: bool) -> Result<Output, ()>; }";
    let svc = parse_service(src).unwrap();
    assert_eq!(svc.methods.len(), 3);
    let decls = method_declarations(&svc);
    assert_eq!(decls.matches("const ").count(), 3);
    let plan = dispatch_plan(&svc);
    assert_eq!(plan.len(), 3);
    assert_eq!(plan[0].wire_name.as_str(), "TEST_SERVICE_METHOD_RPC_METHOD1");
    assert_eq!(plan[1].wire_name.as_str(), "TEST_SERVICE_METHOD_RPC_METHOD2");
    assert_eq!(plan[2].wire_name.as_str(), "TEST_SERVICE_METHOD_RPC_METHOD3");
    assert_ne!(plan[0].wire_name, plan[1].wire_name);
    assert_ne!(plan[0].wire_name, plan[2].wire_name);
    assert_ne!(plan[1].wire_name, plan[2].wire_name);
}

#[test]
fn zero_parameter_method_empty_envelope() {
    let src = "trait TestService3 { fn rpc_method4(&mut self) -> Output; }";
    let svc = parse_service(src).unwrap();
    assert_eq!(req_type(&svc.methods[0]).as_str(), "()");
    let out = service(src).unwrap();
    assert!(out.contains("fn rpc_method4_grpc(&mut self, ctx: ::grpcio::RpcContext, req: (), sink: ::grpcio::UnarySink<Output>);"));
    let plan = dispatch_plan(&svc);
    assert_eq!(plan.len(), 1);
    let hit = route(&plan, "TEST_SERVICE3_METHOD_RPC_METHOD4");
    assert_eq!(hit, Some(0));
    assert_eq!(route(&plan, "TEST_SERVICE3_METHOD_MISSING"), None);
}

#[test]
fn no_return_type_unit_response() {
    let src = "trait Pinger { fn ping(&mut self, input: Input); }";
    let svc = parse_service(src).unwrap();
    assert_eq!(resp_type(&svc.methods[0]).as_str(), "()");
    let out = service(src).unwrap();
    assert!(out.contains("fn ping(&self, req: &(Input,)) -> ::grpcio::Result<()> { self.ping_opt(req, ::grpcio::CallOption::default()) }"));
    assert!(out.contains("fn ping_opt(&self, req: &(Input,), opt: ::grpcio::CallOption) -> ::grpcio::Result<()> { self.client.unary_call(&PINGER_METHOD_PING, req, opt) }"));
    assert!(out.contains("fn ping_async(&self, req: &(Input,)) -> ::grpcio::Result<::grpcio::ClientSStreamReceiver<()>> { self.ping_async_opt(req, ::grpcio::CallOption::default()) }"));
    assert!(out.contains("fn ping_async_opt(&self, req: &(Input,), opt: ::grpcio::CallOption) -> ::grpcio::Result<::grpcio::ClientSStreamReceiver<()>> { self.client.server_streaming(&PINGER_METHOD_PING, req, opt) }"));
}

#[test]
fn service_prefix_disambiguates() {
    let a = registry_const_name("TestService", "rpc_method1");
    let b = registry_const_name("TestService2", "rpc_method1");
    assert_ne!(a, b);
    assert_eq!(a.as_str(), "TEST_SERVICE_METHOD_RPC_METHOD1");
    assert_eq!(b.as_str(), "TEST_SERVICE2_METHOD_RPC_METHOD1");
}

#[test]
fn visibility_carried_onto_artifacts() {
    let src = "trait Quiet { fn go(&mut self); }";
    let svc = parse_service(src).unwrap();
    let d = method_declaration(Visibility::Private, "Quiet", &svc.methods[0]);
    assert!(d.starts_with("const QUIET_METHOD_GO:"));
    let d2 = method_declaration(Visibility::PubCrate, "Quiet", &svc.methods[0]);
    assert!(d2.starts_with("pub(crate) const QUIET_METHOD_GO:"));
}

#[test]
fn attributes_and_comments_in_declaration() {
    let src = "#[deprecated] pub trait Old {\n    // a line comment\n    #[inline] fn run(&mut self, x: u64) -> u64;\n}";
    let svc = parse_service(src).unwrap();
    assert_eq!(svc.attrs.len(), 1);
    assert_eq!(svc.attrs[0].as_str(), "#[deprecated]");
    assert_eq!(svc.methods[0].attrs[0].as_str(), "#[inline]");
    let out = service(src).unwrap();
    assert!(out.contains("#[deprecated]\npub trait Old {"));
    assert!(out.contains("#[inline]\nfn run(&mut self, x: u64) -> u64;"));
}

#[test]
fn mut_self_receiver_accepted() {
    let src = "trait Own { fn take(mut self, x: u64) -> u64; }";
    let svc = parse_service(src).unwrap();
    assert!(!svc.methods[0].by_ref);
    let out = service(src).unwrap();
    assert!(out.contains("fn take(mut self, x: u64) -> u64;"));
}
