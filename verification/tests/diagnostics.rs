use bincode_grpc::parser::parse_service;
use bincode_grpc::schema::GenError;
use bincode_grpc::server;
use bincode_grpc::service;

#[test]
fn shared_receiver_rejected() {
    let r = parse_service("trait T { fn m(&self, x: u64) -> u64; }");
    assert_eq!(r.err(), Some(GenError::NonMutReceiver));
}

#[test]
fn bare_self_receiver_rejected() {
    let r = parse_service("trait T { fn m(self, x: u64) -> u64; }");
    assert_eq!(r.err(), Some(GenError::NonMutReceiver));
}

#[test]
fn duplicate_receiver_rejected() {
    let r = parse_service("trait T { fn m(&mut self, &mut self) -> u64; }");
    assert_eq!(r.err(), Some(GenError::DuplicateReceiver));
}

#[test]
fn missing_receiver_rejected() {
    let r = parse_service("trait T { fn m(x: u64) -> u64; }");
    assert_eq!(r.err(), Some(GenError::MissingReceiver));
}

#[test]
fn pattern_parameter_rejected() {
    let r = parse_service("trait T { fn m(&mut self, (a, b): (u64, bool)) -> u64; }");
    assert_eq!(r.err(), Some(GenError::PatternParameter));
}

#[test]
fn wildcard_parameter_rejected() {
    let r = parse_service("trait T { fn m(&mut self, _: u64) -> u64; }");
    assert_eq!(r.err(), Some(GenError::PatternParameter));
}

#[test]
fn registry_collision_rejected() {
    let r = parse_service(
        "trait T { fn foo_bar(&mut self, x: u64) -> u64; fn FooBar(&mut self, x: u64) -> u64; }",
    );
    assert_eq!(r.err(), Some(GenError::RegistryCollision));
}

#[test]
fn unterminated_attribute_rejected() {
    let r = parse_service("#[deprecated trait T { fn m(&mut self); }");
    assert_eq!(r.err(), Some(GenError::UnterminatedAttribute));
}

#[test]
fn unparsable_declaration_rejected() {
    assert_eq!(
        parse_service("struct T {}").err(),
        Some(GenError::MalformedDeclaration)
    );
    assert_eq!(
        parse_service("trait T { fn m(&mut self) -> u64 }").err(),
        Some(GenError::MalformedDeclaration)
    );
    assert_eq!(
        parse_service("trait T {").err(),
        Some(GenError::MalformedDeclaration)
    );
    assert!(service("trait {}").is_err());
}

#[test]
fn server_requires_impl_block() {
    assert_eq!(
        server("fn loose() {}").err(),
        Some(GenError::MalformedDeclaration)
    );
    assert_eq!(
        server("trait T { }").err(),
        Some(GenError::MalformedDeclaration)
    );
}

#[test]
fn server_rejects_malformed_method() {
    let r = server("impl T for S { fn m(x: u64) -> u64 { x } }");
    assert_eq!(r.err(), Some(GenError::MissingReceiver));
}
