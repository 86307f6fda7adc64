//! Build-time generator for unary RPC client and server stubs.
//!
//! An annotated service interface declaration is parsed into a
//! [`schema::ServiceInterfaceDescriptor`]; independent emitters then derive
//! from that schema a method-descriptor registry, a rewritten trait with
//! transport-facing counterparts of every business method, a service factory,
//! and a client type with four calling variants per method.  A separate
//! transformer completes an implementation block by synthesizing the
//! transport-facing method bodies.  The serialization collaborator is reached
//! through the envelope codecs in [`bi_codec`].

pub mod bi_codec;
pub mod dispatch;
pub mod emit;
pub mod example;
pub mod lexer;
pub mod names;
pub mod parser;
pub mod schema;
pub mod text;
pub mod transform;

pub use emit::service;
pub use transform::server;
