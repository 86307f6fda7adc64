//! A small service that exercises the generator's naming convention end to
//! end: the payload types, an interface in its business-method form, and an
//! implementation of it.

use vstd::prelude::*;

verus! {

/// Request payload of the example service.
#[derive(Clone, Copy, Debug, PartialEq, Eq, Structural)]
pub struct Input {}

/// Response payload of the example service.
#[derive(Clone, Copy, Debug, PartialEq, Eq, Structural)]
pub struct Output {}

/// An example interface in its business-method form, as a service
/// declaration authors it.
pub trait TestService2 {
    fn rpc_method1(&mut self, input: Input) -> Output;

    fn rpc_method2(&mut self, input: Input) -> Output;
}

/// An example implementation.
#[derive(Clone, Copy, Debug)]
pub struct TestServer;

impl TestService2 for TestServer {
    fn rpc_method1(&mut self, input: Input) -> Output {
        Output {  }
    }

    fn rpc_method2(&mut self, input: Input) -> Output {
        Output {  }
    }
}

impl TestServer {
    /// A two-parameter method whose request envelope is the 2-tuple
    /// `(u64, bool)`.
    pub fn rpc_method3(&mut self, forward_id: u64, forward_only: bool) -> (r: Result<Output, ()>)
        ensures
            r is Ok,
    {
        Ok(Output {  })
    }

    /// A zero-parameter method whose request envelope is empty.
    pub fn rpc_method4(&mut self) -> (r: Output)
        ensures
            r == (Output {  }),
    {
        Output {  }
    }
}

} // verus!
