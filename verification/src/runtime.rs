//! The runtime state and the boundary layer: a process-wide registry behind
//! an `Uninitialized -> Initialized` lifecycle, and the call entry that
//! validates every boundary-crossing argument in a fixed order before
//! dispatching through the registry.
//!
//! The boundary arguments arrive here as plain values: the caller-facing
//! shell reads the raw method-name pointer into a [`MethodArg`], the input
//! buffer into a byte slice, and reports whether the input pointer and the
//! output slots were null. Everything that is decided — which failure is
//! reported first, which status code each failure maps to, and which bytes a
//! successful call hands back — is decided here.

use vstd::prelude::*;
use crate::error::{
    status_of, ERR_INTERNAL, ERR_NOT_INITIALIZED, ERR_PARSE_ERROR, ERR_SUCCESS, ERR_TOO_LARGE,
    ERR_UNKNOWN_METHOD,
};
use crate::handlers::EchoHandler;
use crate::registry::{Handler, Registry};

verus! {

/// Maximum accepted input payload size in bytes (10 MiB), enforced before
/// dispatch.
pub const MAX_INPUT_LEN: usize = 10 * 1024 * 1024;

/// The method-name argument of a boundary call, as read from the caller's
/// raw pointer: a null pointer, a non-UTF-8 byte string, or a method name.
#[derive(Debug)]
pub enum MethodArg {
    /// The method-name pointer was null.
    Null,
    /// The method-name bytes were not valid UTF-8 text.
    NotUtf8,
    /// The method name, decoded.
    Name(String),
}

/// The outcome of a boundary call: a failure status code, or output bytes
/// whose ownership passes to the caller (status `ERR_SUCCESS`).
#[derive(Debug)]
pub enum CallOutcome {
    /// The call failed with this status code; no output is written.
    Fail(i32),
    /// The call succeeded; these are the output bytes.
    Output(Vec<u8>),
}

/// The outcome a boundary call must produce, given the runtime state and the
/// boundary arguments. The checks appear in the order the boundary performs
/// them, so the first failing check decides the status code.
pub open spec fn boundary_outcome<H: Handler>(
    state: Option<Map<Seq<char>, H>>,
    method: MethodArg,
    input_null: bool,
    input_len: nat,
    input: Seq<u8>,
    output_slots_null: bool,
) -> Result<Seq<u8>, int> {
    match method {
        MethodArg::Null => Err(ERR_PARSE_ERROR as int),
        _ => if input_null && input_len > 0 {
            Err(ERR_PARSE_ERROR as int)
        } else if input_len > MAX_INPUT_LEN {
            Err(ERR_TOO_LARGE as int)
        } else if output_slots_null {
            Err(ERR_INTERNAL as int)
        } else {
            match state {
                None => Err(ERR_NOT_INITIALIZED as int),
                Some(registry) => match method {
                    MethodArg::Name(name) => if registry.contains_key(name@) {
                        match registry[name@].spec_result(input) {
                            Ok(bytes) => Ok(bytes),
                            Err((kind, _)) => Err(status_of(kind)),
                        }
                    } else {
                        Err(ERR_UNKNOWN_METHOD as int)
                    },
                    _ => Err(ERR_PARSE_ERROR as int),
                },
            }
        },
    }
}

/// Whether an executable outcome is the one the specification calls for.
pub open spec fn outcome_matches(expected: Result<Seq<u8>, int>, actual: CallOutcome) -> bool {
    match (expected, actual) {
        (Ok(bytes), CallOutcome::Output(data)) => data@ == bytes,
        (Err(status), CallOutcome::Fail(code)) => code as int == status,
        _ => false,
    }
}

/// The process-wide runtime state: `None` until the first `initialize`, then
/// `Some` registry for the rest of the process lifetime. There is no
/// de-initialize transition.
pub struct Runtime<H: Handler> {
    registry: Option<Registry<H>>,
}

impl<H: Handler> View for Runtime<H> {
    type V = Option<Map<Seq<char>, H>>;

    closed spec fn view(&self) -> Option<Map<Seq<char>, H>> {
        match self.registry {
            None => None,
            Some(r) => Some(r@),
        }
    }
}

impl<H: Handler> Runtime<H> {
    /// Well-formedness: the registry, once constructed, is well-formed.
    pub closed spec fn wf(&self) -> bool {
        match self.registry {
            None => true,
            Some(r) => r.wf(),
        }
    }

    /// Whether `initialize` has been called.
    pub open spec fn is_initialized(&self) -> bool {
        self@ is Some
    }

    /// The runtime as created: uninitialized, with no registry.
    pub fn new() -> (r: Self)
        ensures
            r.wf(),
            r@ == None::<Map<Seq<char>, H>>,
    {
        Runtime { registry: None }
    }

    /// Initialize the runtime. The first call constructs an empty registry;
    /// every later call is a no-op that leaves existing registrations
    /// untouched. Always succeeds.
    pub fn initialize(&mut self) -> (status: i32)
        requires
            old(self).wf(),
        ensures
            final(self).wf(),
            status == ERR_SUCCESS,
            final(self).is_initialized(),
            old(self).is_initialized() ==> final(self)@ == old(self)@,
            !old(self).is_initialized() ==> final(self)@ == Some(
                Map::<Seq<char>, H>::empty(),
            ),
    {
        if self.registry.is_none() {
            self.registry = Some(Registry::new());
        }
        ERR_SUCCESS
    }

    /// Register a handler under a method name, inserting or replacing it.
    /// The runtime must be initialized; registration does not initialize it.
    pub fn register(&mut self, name: String, handler: H)
        requires
            old(self).wf(),
            old(self).is_initialized(),
        ensures
            final(self).wf(),
            final(self)@ == Some(old(self)@.unwrap().insert(name@, handler)),
    {
        match &mut self.registry {
            Some(registry) => registry.register(name, handler),
            None => {},
        }
    }

    /// The boundary `call` operation, on arguments already read from the
    /// caller's raw pointers. Performs the fixed-order validation, then
    /// resolves and executes the handler under the registry, and returns
    /// either the first failure's status code or the output bytes.
    ///
    /// `input_null` reports a null input pointer (the slice is then empty);
    /// otherwise the slice holds `input_len` bytes. `output_slots_null`
    /// reports that an output slot pointer was null.
    pub fn boundary_call(
        &self,
        method: &MethodArg,
        input_null: bool,
        input_len: usize,
        input: &[u8],
        output_slots_null: bool,
    ) -> (r: CallOutcome)
        requires
            self.wf(),
            !input_null ==> input@.len() == input_len,
            input_null ==> input@.len() == 0,
        ensures
            outcome_matches(
                boundary_outcome(
                    self@,
                    *method,
                    input_null,
                    input_len as nat,
                    input@,
                    output_slots_null,
                ),
                r,
            ),
    {
        if let MethodArg::Null = method {
            return CallOutcome::Fail(ERR_PARSE_ERROR);
        }
        if input_null && input_len > 0 {
            return CallOutcome::Fail(ERR_PARSE_ERROR);
        }
        if input_len > MAX_INPUT_LEN {
            return CallOutcome::Fail(ERR_TOO_LARGE);
        }
        if output_slots_null {
            return CallOutcome::Fail(ERR_INTERNAL);
        }
        let registry = match &self.registry {
            None => {
                return CallOutcome::Fail(ERR_NOT_INITIALIZED);
            },
            Some(r) => r,
        };
        let name = match method {
            MethodArg::Name(s) => s,
            _ => {
                return CallOutcome::Fail(ERR_PARSE_ERROR);
            },
        };
        match registry.call(name.as_str(), input) {
            Ok(data) => CallOutcome::Output(data),
            Err(e) => CallOutcome::Fail(e.status_code()),
        }
    }
}

/// The boundary is a transparent relay: a valid call on a registered name
/// yields exactly the registered handler's result — its output bytes on
/// success, and the status code of its error kind on failure.
pub proof fn lemma_boundary_relays_handler<H: Handler>(
    registry: Map<Seq<char>, H>,
    name: String,
    input: Seq<u8>,
)
    requires
        registry.contains_key(name@),
        input.len() <= MAX_INPUT_LEN,
    ensures
        boundary_outcome(Some(registry), MethodArg::Name(name), false, input.len(), input, false)
            == (match registry[name@].spec_result(input) {
            Ok(bytes) => Ok::<Seq<u8>, int>(bytes),
            Err((kind, _)) => Err::<Seq<u8>, int>(status_of(kind)),
        }),
{
}

/// A valid call on an unregistered name yields the unknown-method status,
/// whatever the input bytes.
pub proof fn lemma_unregistered_yields_unknown_method<H: Handler>(
    registry: Map<Seq<char>, H>,
    name: String,
    input: Seq<u8>,
)
    requires
        !registry.contains_key(name@),
        input.len() <= MAX_INPUT_LEN,
    ensures
        boundary_outcome(Some(registry), MethodArg::Name(name), false, input.len(), input, false)
            == Err::<Seq<u8>, int>(ERR_UNKNOWN_METHOD as int),
{
}

/// A call issued before the first `initialize` yields the not-initialized
/// status, provided no argument check ahead of the initialization check
/// fails first (non-null method name, input pointer present when the length
/// is positive, input within the cap, output slots present).
pub proof fn lemma_uninitialized_yields_not_initialized<H: Handler>(
    method: MethodArg,
    input_null: bool,
    input_len: nat,
    input: Seq<u8>,
)
    requires
        !(method is Null),
        !(input_null && input_len > 0),
        input_len <= MAX_INPUT_LEN,
    ensures
        boundary_outcome::<H>(None, method, input_null, input_len, input, false)
            == Err::<Seq<u8>, int>(ERR_NOT_INITIALIZED as int),
{
}

/// An input over the cap yields the too-large status before any dispatch,
/// whatever the runtime state and the registered handlers, provided no
/// pointer check ahead of the size check fails first.
pub proof fn lemma_oversized_input_yields_too_large<H: Handler>(
    state: Option<Map<Seq<char>, H>>,
    method: MethodArg,
    input_null: bool,
    input_len: nat,
    input: Seq<u8>,
    output_slots_null: bool,
)
    requires
        !(method is Null),
        !(input_null && input_len > 0),
        input_len > MAX_INPUT_LEN,
    ensures
        boundary_outcome(state, method, input_null, input_len, input, output_slots_null)
            == Err::<Seq<u8>, int>(ERR_TOO_LARGE as int),
{
}

/// A null method-name pointer yields the parse-error status, whatever every
/// other argument and the runtime state.
pub proof fn lemma_null_method_yields_parse_error<H: Handler>(
    state: Option<Map<Seq<char>, H>>,
    input_null: bool,
    input_len: nat,
    input: Seq<u8>,
    output_slots_null: bool,
)
    ensures
        boundary_outcome(state, MethodArg::Null, input_null, input_len, input, output_slots_null)
            == Err::<Seq<u8>, int>(ERR_PARSE_ERROR as int),
{
}

/// Round trip: a valid call on a name registered to the echoing handler
/// succeeds and hands back exactly the input bytes.
pub proof fn lemma_echo_round_trip(
    registry: Map<Seq<char>, EchoHandler>,
    name: String,
    input: Seq<u8>,
)
    requires
        registry.contains_key(name@),
        input.len() <= MAX_INPUT_LEN,
    ensures
        boundary_outcome(Some(registry), MethodArg::Name(name), false, input.len(), input, false)
            == Ok::<Seq<u8>, int>(input),
{
}

} // verus!
