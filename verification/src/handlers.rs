//! Ready-made handler capabilities: an echoing handler, a byte-reversing
//! handler, and a handler that reports a fixed error.

use vstd::prelude::*;
use vstd::slice::slice_to_vec;
use crate::error::{ErrorKind, RpcError};
use crate::registry::Handler;

verus! {

/// A handler that returns its input unchanged.
pub struct EchoHandler;

impl Handler for EchoHandler {
    open spec fn spec_result(&self, input: Seq<u8>) -> Result<Seq<u8>, (ErrorKind, Seq<char>)> {
        Ok(input)
    }

    fn run(&self, input: &[u8]) -> (r: Result<Vec<u8>, RpcError>) {
        Ok(slice_to_vec(input))
    }
}

/// A handler that returns its input with the byte order reversed.
pub struct ReverseHandler;

impl Handler for ReverseHandler {
    open spec fn spec_result(&self, input: Seq<u8>) -> Result<Seq<u8>, (ErrorKind, Seq<char>)> {
        Ok(input.reverse())
    }

    fn run(&self, input: &[u8]) -> (r: Result<Vec<u8>, RpcError>) {
        let n = input.len();
        let mut out: Vec<u8> = Vec::new();
        let mut i: usize = n;
        while i > 0
            invariant
                n == input@.len(),
                i <= n,
                out@.len() == n - i,
                forall|j: int| 0 <= j < out@.len() ==> out@[j] == input@[n - 1 - j],
            decreases i,
        {
            i = i - 1;
            out.push(input[i]);
        }
        proof {
            assert(out@ =~= input@.reverse());
        }
        Ok(out)
    }
}

/// A handler that fails every call with a fixed error kind and context
/// string.
pub struct FailHandler {
    pub kind: ErrorKind,
    pub context: String,
}

impl Handler for FailHandler {
    open spec fn spec_result(&self, input: Seq<u8>) -> Result<Seq<u8>, (ErrorKind, Seq<char>)> {
        Err((self.kind, self.context@))
    }

    fn run(&self, input: &[u8]) -> (r: Result<Vec<u8>, RpcError>) {
        let context = self.context.clone();
        Err(
            match self.kind {
                ErrorKind::UnknownMethod => RpcError::UnknownMethod(context),
                ErrorKind::NotFound => RpcError::NotFound(context),
                ErrorKind::ParseError => RpcError::ParseError(context),
                ErrorKind::SerializationError => RpcError::SerializationError(context),
                ErrorKind::Internal => RpcError::Internal(context),
                ErrorKind::TooLarge => RpcError::TooLarge(context),
            },
        )
    }
}

/// Any one of the ready-made handlers, as a single registrable type, so
/// that different stock handlers can stand side by side in one registry.
pub enum BuiltinHandler {
    Echo(EchoHandler),
    Reverse(ReverseHandler),
    Fail(FailHandler),
}

impl Handler for BuiltinHandler {
    open spec fn spec_result(&self, input: Seq<u8>) -> Result<Seq<u8>, (ErrorKind, Seq<char>)> {
        match self {
            BuiltinHandler::Echo(h) => h.spec_result(input),
            BuiltinHandler::Reverse(h) => h.spec_result(input),
            BuiltinHandler::Fail(h) => h.spec_result(input),
        }
    }

    fn run(&self, input: &[u8]) -> (r: Result<Vec<u8>, RpcError>) {
        match self {
            BuiltinHandler::Echo(h) => h.run(input),
            BuiltinHandler::Reverse(h) => h.run(input),
            BuiltinHandler::Fail(h) => h.run(input),
        }
    }
}

} // verus!
