//! The reverse direction: calls that the guest makes on its host.
//!
//! A `Host` stands for one named connection to the host. Each of its methods
//! describes one call completely: where it goes and what it carries. Sending
//! it is left to whoever holds the connection.

use crate::dispatch::{namespace, namespace_name, Operation};
use crate::records::{Lists, Maps, Optional, Required, TestFunctionArgs, Tests};
use vstd::prelude::*;
use vstd::string::*;

verus! {

/// A named connection to the host.
#[derive(Debug, PartialEq, Clone)]
pub struct Host {
    binding: String,
}

/// What a call on the host carries.
#[derive(Debug, PartialEq, Clone)]
pub enum Payload {
    Arguments(TestFunctionArgs),
    Bundle(Tests),
}

/// One call on the host: the connection, the namespace and the operation
/// that address it, and the value to send.
#[derive(Debug, PartialEq, Clone)]
pub struct HostCall {
    pub binding: String,
    pub namespace: String,
    pub operation: Operation,
    pub payload: Payload,
}

impl View for Host {
    type V = Seq<char>;

    /// The name of the connection.
    closed spec fn view(&self) -> Seq<char> {
        self.binding@
    }
}

impl Default for Host {
    /// The connection named `default`.
    fn default() -> (r: Host)
        ensures
            r@ == "default"@,
    {
        Host { binding: String::from_str("default") }
    }
}

/// The connection of the given name.
pub fn host(binding: &str) -> (r: Host)
    ensures
        r@ == binding@,
{
    Host { binding: String::from_str(binding) }
}

/// The connection named `default`.
pub fn default() -> (r: Host)
    ensures
        r@ == "default"@,
{
    Host { binding: String::from_str("default") }
}

impl Host {
    /// The name of the connection.
    pub fn binding(&self) -> (r: &str)
        ensures
            r@ == self@,
    {
        self.binding.as_str()
    }

    /// The call of `testFunction` with the four records as its arguments.
    pub fn test_function(
        &self,
        required: Required,
        optional: Optional,
        maps: Maps,
        lists: Lists,
    ) -> (call: HostCall)
        ensures
            call.binding@ == self@,
            call.namespace@ == namespace_name(),
            call.operation == Operation::TestFunction,
            call.payload == Payload::Arguments(
                (TestFunctionArgs { required, optional, maps, lists }),
            ),
    {
        HostCall {
            binding: self.binding.clone(),
            namespace: String::from_str(namespace()),
            operation: Operation::TestFunction,
            payload: Payload::Arguments(TestFunctionArgs { required, optional, maps, lists }),
        }
    }

    /// The call of `testUnary` with the bundle as its argument.
    pub fn test_unary(&self, tests: Tests) -> (call: HostCall)
        ensures
            call.binding@ == self@,
            call.namespace@ == namespace_name(),
            call.operation == Operation::TestUnary,
            call.payload == Payload::Bundle(tests),
    {
        HostCall {
            binding: self.binding.clone(),
            namespace: String::from_str(namespace()),
            operation: Operation::TestUnary,
            payload: Payload::Bundle(tests),
        }
    }

    /// The call of `testDecode` with the bundle as its argument.
    pub fn test_decode(&self, tests: Tests) -> (call: HostCall)
        ensures
            call.binding@ == self@,
            call.namespace@ == namespace_name(),
            call.operation == Operation::TestDecode,
            call.payload == Payload::Bundle(tests),
    {
        HostCall {
            binding: self.binding.clone(),
            namespace: String::from_str(namespace()),
            operation: Operation::TestDecode,
            payload: Payload::Bundle(tests),
        }
    }
}

} // verus!
