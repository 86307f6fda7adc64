use bincode_grpc::bi_codec::{
    de_pair, de_u64, de_unit, round_trip_pair, round_trip_u64, round_trip_unit, ser_pair, ser_u64,
    ser_unit, CodecError,
};
use bincode_grpc::example::{Input, Output, TestServer, TestService2};
use bincode_grpc::server;
use bincode_grpc::transform::grpc_method_impl;
use bincode_grpc::parser::parse_service;
use bincode_grpc::schema::Visibility;

#[test]
fn pair_envelope_bytes_match_collaborator() {
    let mut buf: Vec<u8> = Vec::new();
    ser_pair(7, true, &mut buf);
    let direct: Vec<u8> = bincode::serialize(&(7u64, true)).unwrap();
    assert_eq!(buf, direct);
    assert_eq!(buf.len(), 9);
    assert_eq!(buf, vec![7, 0, 0, 0, 0, 0, 0, 0, 1]);
}

#[test]
fn unit_envelope_has_no_bytes() {
    let mut buf: Vec<u8> = Vec::new();
    ser_unit(&mut buf);
    assert_eq!(buf.len(), 0);
    let direct: Vec<u8> = bincode::serialize(&()).unwrap();
    assert_eq!(buf, direct);
    assert!(de_unit(&buf).is_ok());
}

#[test]
fn u64_envelope_little_endian() {
    let mut buf: Vec<u8> = Vec::new();
    ser_u64(0x0102030405060708, &mut buf);
    assert_eq!(buf, vec![8, 7, 6, 5, 4, 3, 2, 1]);
    let direct: Vec<u8> = bincode::serialize(&0x0102030405060708u64).unwrap();
    assert_eq!(buf, direct);
}

#[test]
fn round_trips() {
    assert!(round_trip_unit().is_ok());
    assert_eq!(round_trip_u64(0), 0);
    assert_eq!(round_trip_u64(u64::MAX), u64::MAX);
    assert_eq!(round_trip_pair(42, false), (42, false));
    assert_eq!(round_trip_pair(u64::MAX, true), (u64::MAX, true));
}

#[test]
fn round_trip_through_collaborator() {
    let mut buf: Vec<u8> = Vec::new();
    ser_pair(99, true, &mut buf);
    let back: (u64, bool) = bincode::deserialize(&buf).unwrap();
    assert_eq!(back, (99, true));
}

#[test]
fn decode_rejects_malformed() {
    assert_eq!(de_u64(&[1, 2, 3]), Err(CodecError::Malformed));
    assert!(de_u64(&[1, 2, 3, 4, 5, 6, 7, 8]).is_ok());
    assert_eq!(
        de_pair(&[0, 0, 0, 0, 0, 0, 0, 0]),
        Err(CodecError::Malformed)
    );
    assert_eq!(
        de_pair(&[0, 0, 0, 0, 0, 0, 0, 0, 2]),
        Err(CodecError::Malformed)
    );
    assert_eq!(de_pair(&[5, 0, 0, 0, 0, 0, 0, 0, 1]), Ok((5, true)));
    assert_eq!(de_pair(&[5, 0, 0, 0, 0, 0, 0, 0, 0]), Ok((5, false)));
}

#[test]
fn decode_allows_trailing_bytes() {
    assert_eq!(de_u64(&[9, 0, 0, 0, 0, 0, 0, 0, 77]), Ok(9));
    assert_eq!(de_pair(&[9, 0, 0, 0, 0, 0, 0, 0, 1, 77]), Ok((9, true)));
}

#[test]
fn forward_envelope_destructured_in_order() {
    let src = "trait T { fn forward(&mut self, id: u64, only: bool) -> Result<Output, ()>; }";
    let svc = parse_service(src).unwrap();
    let m = &svc.methods[0];
    assert_eq!(bincode_grpc::emit::req_type(m).as_str(), "(u64, bool,)");
    let body = grpc_method_impl(Visibility::Private, m);
    assert!(body.contains("fn forward_grpc(&mut self, ctx: ::grpcio::RpcContext, req: (u64, bool,), sink: ::grpcio::UnarySink<Result<Output,()>>) {"));
    assert!(body.contains("let (id, only,) = req;"));
    assert!(body.contains("let resp = self.forward(id, only);"));
    assert!(body.contains("let f = sink.success(resp).map_err(move |e| ::tracing::error!(\"failed to reply {:?}\", e)).map(|_| ());"));
    assert!(body.contains("ctx.spawn(f)"));
}

#[test]
fn server_merges_synthesized_methods() {
    let src = "impl TestService for TestServer {\n    fn rpc_method1(&mut self, input: Input) -> Output {\n        Output {}\n    }\n\n    fn rpc_method3(&mut self, forward_id: u64, forward_only: bool) -> Result<Output, ()> { Ok(Output {}) }\n}\n";
    let out = server(src).unwrap();
    assert!(out.starts_with("impl TestService for TestServer {"));
    assert!(out.contains("fn rpc_method1(&mut self, input: Input) -> Output {\n        Output {}\n    }"));
    assert!(out.contains("fn rpc_method1_grpc(&mut self, ctx: ::grpcio::RpcContext, req: (Input,), sink: ::grpcio::UnarySink<Output>) {"));
    assert!(out.contains("let (input,) = req;"));
    assert!(out.contains("let resp = self.rpc_method1(input);"));
    assert!(out.contains("let (forward_id, forward_only,) = req;"));
    assert!(out.contains("let resp = self.rpc_method3(forward_id, forward_only);"));
    assert!(out.ends_with("}"));
}

#[test]
fn server_zero_parameter_method() {
    let src = "impl TestService3 for TestServer { fn rpc_method4(&mut self) -> Output { Output {} } }";
    let out = server(src).unwrap();
    assert!(out.contains("fn rpc_method4_grpc(&mut self, ctx: ::grpcio::RpcContext, req: (), sink: ::grpcio::UnarySink<Output>) {"));
    assert!(out.contains("let () = req;"));
    assert!(out.contains("let resp = self.rpc_method4();"));
}

#[test]
fn example_server_methods() {
    let mut s = TestServer;
    assert_eq!(s.rpc_method1(Input {}), Output {});
    assert_eq!(s.rpc_method2(Input {}), Output {});
    assert_eq!(s.rpc_method3(7, true), Ok(Output {}));
    assert_eq!(s.rpc_method4(), Output {});
}
