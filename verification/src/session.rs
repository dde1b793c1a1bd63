//! Value and range types, and the caller-facing session handle.
//!
//! A `Session` owns one unit identifier and one handle to submit onto the
//! shared request queue. Each public operation validates the caller's
//! request, builds the queue envelope with a fresh response-delivery
//! handle, and hands both back; the asynchronous submit and await live
//! outside the verified core.

use vstd::prelude::*;

use crate::channel::{function_code_of, response_channel, unit_id_of, Request, ServiceRequest};
use crate::error::{Error, InvalidRequestReason};
use crate::service::Service;

verus! {

/// Protocol ceiling on the count of a register-addressed operation,
/// from the maximum PDU size.
pub const MAX_REGISTERS: u16 = 125;

/// Protocol ceiling on the count of a bit-addressed operation,
/// from the maximum PDU size.
pub const MAX_BINARY_BITS: u16 = 2000;

/// The addressing byte selecting the target device on a shared
/// multi-drop link.
#[derive(Clone, Copy, Debug, PartialEq, Eq, PartialOrd, Structural)]
pub struct UnitIdentifier {
    id: u8,
}

impl UnitIdentifier {
    /// The wrapped addressing byte, for contracts.
    pub closed spec fn spec_value(self) -> u8 {
        self.id
    }

    pub fn new(unit_id: u8) -> (r: Self)
        ensures
            r.spec_value() == unit_id,
    {
        Self { id: unit_id }
    }

    /// The documented default used when no explicit unit is addressed.
    pub fn default() -> (r: Self)
        ensures
            r.spec_value() == 0xFF,
    {
        Self { id: 0xFF }
    }

    pub fn value(&self) -> (v: u8)
        ensures
            v == self.spec_value(),
    {
        self.id
    }
}

/// A contiguous span of addressed bits or registers. Construction performs
/// no validation: validity is checked explicitly, against the ceiling of
/// the operation class the range is used with.
#[derive(Clone, Copy, Debug, PartialEq, Eq, Structural)]
pub struct AddressRange {
    pub start: u16,
    pub count: u16,
}

impl AddressRange {
    /// The shared range-check rule, parameterized by the operation-class
    /// ceiling. A count of zero is never valid; the last address of the
    /// span must fit the 16-bit address space; the count must not exceed
    /// the ceiling. The first violated rule, in that order, is the reason
    /// reported.
    pub open spec fn spec_check_validity(self, max_count: u16) -> Result<(), InvalidRequestReason> {
        if self.count == 0 {
            Err(InvalidRequestReason::CountOfZero)
        } else if self.start + self.count - 1 > u16::MAX {
            Err(InvalidRequestReason::AddressOverflow)
        } else if self.count > max_count {
            Err(InvalidRequestReason::CountTooBigForType)
        } else {
            Ok(())
        }
    }

    /// Validity under the bit-operation ceiling.
    pub open spec fn spec_check_validity_for_bits(self) -> Result<(), InvalidRequestReason> {
        self.spec_check_validity(MAX_BINARY_BITS)
    }

    /// Validity under the register-operation ceiling.
    pub open spec fn spec_check_validity_for_registers(self) -> Result<(), InvalidRequestReason> {
        self.spec_check_validity(MAX_REGISTERS)
    }

    /// Pure construction; validation is explicit and separate, so a range
    /// can be built before its operation class is known.
    pub fn new(start: u16, count: u16) -> (r: Self)
        ensures
            r.start == start,
            r.count == count,
    {
        AddressRange { start, count }
    }

    fn check_validity(&self, max_count: u16) -> (r: Result<(), InvalidRequestReason>)
        ensures
            r == self.spec_check_validity(max_count),
    {
        if self.count == 0 {
            return Err(InvalidRequestReason::CountOfZero);
        }

        let last_address: u32 = (self.start as u32) + (self.count as u32 - 1);
        if last_address > (u16::MAX as u32) {
            return Err(InvalidRequestReason::AddressOverflow);
        }

        if self.count > max_count {
            return Err(InvalidRequestReason::CountTooBigForType);
        }

        Ok(())
    }

    pub fn check_validity_for_bits(&self) -> (r: Result<(), InvalidRequestReason>)
        ensures
            r == self.spec_check_validity_for_bits(),
    {
        self.check_validity(MAX_BINARY_BITS)
    }

    pub fn check_validity_for_registers(&self) -> (r: Result<(), InvalidRequestReason>)
        ensures
            r == self.spec_check_validity_for_registers(),
    {
        self.check_validity(MAX_REGISTERS)
    }
}

/// A single addressed value in a response sequence.
#[derive(Clone, Copy, Debug, PartialEq, Eq, Structural)]
pub struct Indexed<T> {
    pub index: u16,
    pub value: T,
}

impl<T> Indexed<T> {
    pub fn new(index: u16, value: T) -> (r: Self)
        ensures
            r.index == index,
            r.value == value,
    {
        Indexed { index, value }
    }
}

/// The caller-facing handle: one unit identifier and one producer handle
/// onto the shared request queue. It keeps no per-request state, so calls
/// are independent of one another.
pub struct Session {
    id: UnitIdentifier,
    channel_tx: tokio::sync::mpsc::Sender<Request>,
}

impl Session {
    /// The unit identifier attached to every envelope this session builds.
    pub closed spec fn spec_unit_id(self) -> UnitIdentifier {
        self.id
    }

    /// The queue producer handle this session submits through.
    pub closed spec fn spec_channel(self) -> tokio::sync::mpsc::Sender<Request> {
        self.channel_tx
    }

    pub fn new(id: UnitIdentifier, channel_tx: tokio::sync::mpsc::Sender<Request>) -> (s: Self)
        ensures
            s.spec_unit_id() == id,
            s.spec_channel() == channel_tx,
    {
        Session { id, channel_tx }
    }

    pub fn unit_id(&self) -> (id: UnitIdentifier)
        ensures
            id == self.spec_unit_id(),
    {
        self.id
    }

    /// The producer handle, for the submit step that runs outside the
    /// verified core.
    pub fn channel(&self) -> (c: &tokio::sync::mpsc::Sender<Request>)
        ensures
            *c == self.spec_channel(),
    {
        &self.channel_tx
    }

    /// Validate a caller's request and, only when it passes, build the
    /// queue envelope around the given response-delivery handle. An
    /// invalid request is returned as an error carrying its exact reason,
    /// and no envelope exists for it.
    pub fn prepare_request<S: Service>(
        &self,
        request: S::Request,
        reply_to: tokio::sync::oneshot::Sender<Result<S::Response, Error>>,
    ) -> (r: Result<Request, Error>)
        ensures
            (r matches Ok(env) ==> {
                &&& S::spec_request_valid(request) is Ok
                &&& env == S::spec_wrap(
                    (ServiceRequest { id: self.spec_unit_id(), argument: request, reply_to }),
                )
            }),
            (r matches Err(e) ==> {
                &&& S::spec_request_valid(request) matches Err(reason)
                    && e == Error::InvalidRequest(reason)
            }),
    {
        match S::check_request_validity(&request) {
            Err(reason) => Err(Error::InvalidRequest(reason)),
            Ok(()) => Ok(
                S::create_request(ServiceRequest { id: self.id, argument: request, reply_to }),
            ),
        }
    }

    /// The local half of one service call: validate, make a fresh
    /// response-delivery handle, and envelope the request. On success the
    /// envelope carries this operation's function code, this session's
    /// unit identifier and the caller's payload; on failure the exact
    /// validation reason comes back and no envelope was built.
    pub fn start_service_call<S: Service>(&self, request: S::Request) -> (r: Result<
        (Request, tokio::sync::oneshot::Receiver<Result<S::Response, Error>>),
        Error,
    >)
        ensures
            (r matches Ok(p) ==> {
                &&& S::spec_request_valid(request) is Ok
                &&& function_code_of(p.0) == S::spec_function_code()
                &&& unit_id_of(p.0) == self.spec_unit_id()
                &&& exists|tx: tokio::sync::oneshot::Sender<Result<S::Response, Error>>|
                    p.0 == S::spec_wrap(
                        (ServiceRequest { id: self.spec_unit_id(), argument: request, reply_to: tx }),
                    )
            }),
            (r matches Err(e) ==> {
                &&& S::spec_request_valid(request) matches Err(reason)
                    && e == Error::InvalidRequest(reason)
            }),
    {
        let ghost request0 = request;
        let (tx, rx) = response_channel::<Result<S::Response, Error>>();
        let ghost tx0 = tx;
        match self.prepare_request::<S>(request, tx) {
            Err(e) => Err(e),
            Ok(env) => {
                proof {
                    let sr = ServiceRequest::<S> {
                        id: self.spec_unit_id(),
                        argument: request0,
                        reply_to: tx0,
                    };
                    S::lemma_wrap_envelope(sr);
                }
                Ok((env, rx))
            },
        }
    }
}

/// Validation is a pure predicate: two checks of equal ranges under one
/// ceiling give one and the same result.
pub proof fn lemma_validation_pure(a: AddressRange, b: AddressRange, max_count: u16)
    requires
        a == b,
    ensures
        a.spec_check_validity(max_count) == b.spec_check_validity(max_count),
        a.spec_check_validity_for_bits() == b.spec_check_validity_for_bits(),
        a.spec_check_validity_for_registers() == b.spec_check_validity_for_registers(),
{
}

/// A count of zero is rejected with the zero-count reason, whatever the
/// start and whatever the ceiling.
pub proof fn lemma_zero_count_rejected(range: AddressRange, max_count: u16)
    requires
        range.count == 0,
    ensures
        range.spec_check_validity(max_count) == Err::<(), InvalidRequestReason>(InvalidRequestReason::CountOfZero),
{
}

/// A span whose last address leaves the 16-bit address space is rejected
/// with the overflow reason, whatever the ceiling.
pub proof fn lemma_address_overflow_rejected(range: AddressRange, max_count: u16)
    requires
        range.start + range.count - 1 > u16::MAX,
    ensures
        range.spec_check_validity(max_count) == Err::<(), InvalidRequestReason>(InvalidRequestReason::AddressOverflow),
{
}

/// Under the bit-operation ceiling, a span that fits the address space
/// passes with a count of 1 to 2000 and is rejected as too large with a
/// count of 2001 to 65535.
pub proof fn lemma_bit_count_bounds(range: AddressRange)
    requires
        range.start + range.count - 1 <= u16::MAX,
        range.count >= 1,
    ensures
        range.count <= 2000 ==> range.spec_check_validity_for_bits() == Ok::<(), InvalidRequestReason>(()),
        range.count > 2000 ==> range.spec_check_validity_for_bits() == Err::<(), InvalidRequestReason>(InvalidRequestReason::CountTooBigForType),
{
}

/// Under the register-operation ceiling, a span that fits the address
/// space passes with a count of 1 to 125 and is rejected as too large
/// with a count of 126 to 65535.
pub proof fn lemma_register_count_bounds(range: AddressRange)
    requires
        range.start + range.count - 1 <= u16::MAX,
        range.count >= 1,
    ensures
        range.count <= 125 ==> range.spec_check_validity_for_registers() == Ok::<(), InvalidRequestReason>(()),
        range.count > 125 ==> range.spec_check_validity_for_registers() == Err::<(), InvalidRequestReason>(InvalidRequestReason::CountTooBigForType),
{
}

} // verus!
