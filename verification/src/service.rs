//! The per-operation service abstraction.
//!
//! The five supported operations differ only in function code, payload
//! types and validation rule. Each is a binding of those three to one
//! envelope tag, so the session's validate-envelope-enqueue-await
//! sequence is written once, generically.

use vstd::prelude::*;

use crate::channel::{function_code_of, unit_id_of, Request, ServiceRequest};
use crate::error::InvalidRequestReason;
use crate::function::FunctionCode;
use crate::session::{AddressRange, Indexed};

verus! {

/// One binding of an operation to its wire tag, payload types and
/// validation rule.
pub trait Service: Sized {
    /// The caller-supplied payload of the operation.
    type Request;

    /// The payload the transport task delivers back on success.
    type Response;

    /// The function code this operation uses on the wire.
    spec fn spec_function_code() -> FunctionCode;

    /// The operation's validation rule, as a pure predicate on the payload.
    spec fn spec_request_valid(request: Self::Request) -> Result<(), InvalidRequestReason>;

    /// The envelope this operation's requests travel in.
    spec fn spec_wrap(request: ServiceRequest<Self>) -> Request;

    fn request_function_code() -> (c: FunctionCode)
        ensures
            c == Self::spec_function_code(),
    ;

    fn check_request_validity(request: &Self::Request) -> (r: Result<(), InvalidRequestReason>)
        ensures
            r == Self::spec_request_valid(*request),
    ;

    fn create_request(request: ServiceRequest<Self>) -> (r: Request)
        ensures
            r == Self::spec_wrap(request),
    ;

    /// Every envelope an operation wraps carries that operation's own
    /// function-code tag and the unit identifier it was built with.
    proof fn lemma_wrap_envelope(request: ServiceRequest<Self>)
        ensures
            function_code_of(Self::spec_wrap(request)) == Self::spec_function_code(),
            unit_id_of(Self::spec_wrap(request)) == request.id,
    ;
}

/// Read a span of coils (single-bit writable outputs).
pub struct ReadCoils;

/// Read a span of discrete inputs (single-bit read-only inputs).
pub struct ReadDiscreteInputs;

/// Read a span of holding registers (16-bit read-write values).
pub struct ReadHoldingRegisters;

/// Read a span of input registers (16-bit read-only values).
pub struct ReadInputRegisters;

/// Write one coil to a given state.
pub struct WriteSingleCoil;

impl Service for ReadCoils {
    type Request = AddressRange;

    type Response = Vec<Indexed<bool>>;

    open spec fn spec_function_code() -> FunctionCode {
        FunctionCode::ReadCoils
    }

    open spec fn spec_request_valid(request: AddressRange) -> Result<(), InvalidRequestReason> {
        request.spec_check_validity_for_bits()
    }

    open spec fn spec_wrap(request: ServiceRequest<ReadCoils>) -> Request {
        Request::ReadCoils(request)
    }

    fn request_function_code() -> (c: FunctionCode) {
        FunctionCode::ReadCoils
    }

    fn check_request_validity(request: &AddressRange) -> (r: Result<(), InvalidRequestReason>) {
        request.check_validity_for_bits()
    }

    fn create_request(request: ServiceRequest<ReadCoils>) -> (r: Request) {
        Request::ReadCoils(request)
    }

    proof fn lemma_wrap_envelope(request: ServiceRequest<ReadCoils>) {
    }
}

impl Service for ReadDiscreteInputs {
    type Request = AddressRange;

    type Response = Vec<Indexed<bool>>;

    open spec fn spec_function_code() -> FunctionCode {
        FunctionCode::ReadDiscreteInputs
    }

    open spec fn spec_request_valid(request: AddressRange) -> Result<(), InvalidRequestReason> {
        request.spec_check_validity_for_bits()
    }

    open spec fn spec_wrap(request: ServiceRequest<ReadDiscreteInputs>) -> Request {
        Request::ReadDiscreteInputs(request)
    }

    fn request_function_code() -> (c: FunctionCode) {
        FunctionCode::ReadDiscreteInputs
    }

    fn check_request_validity(request: &AddressRange) -> (r: Result<(), InvalidRequestReason>) {
        request.check_validity_for_bits()
    }

    fn create_request(request: ServiceRequest<ReadDiscreteInputs>) -> (r: Request) {
        Request::ReadDiscreteInputs(request)
    }

    proof fn lemma_wrap_envelope(request: ServiceRequest<ReadDiscreteInputs>) {
    }
}

impl Service for ReadHoldingRegisters {
    type Request = AddressRange;

    type Response = Vec<Indexed<u16>>;

    open spec fn spec_function_code() -> FunctionCode {
        FunctionCode::ReadHoldingRegisters
    }

    open spec fn spec_request_valid(request: AddressRange) -> Result<(), InvalidRequestReason> {
        request.spec_check_validity_for_registers()
    }

    open spec fn spec_wrap(request: ServiceRequest<ReadHoldingRegisters>) -> Request {
        Request::ReadHoldingRegisters(request)
    }

    fn request_function_code() -> (c: FunctionCode) {
        FunctionCode::ReadHoldingRegisters
    }

    fn check_request_validity(request: &AddressRange) -> (r: Result<(), InvalidRequestReason>) {
        request.check_validity_for_registers()
    }

    fn create_request(request: ServiceRequest<ReadHoldingRegisters>) -> (r: Request) {
        Request::ReadHoldingRegisters(request)
    }

    proof fn lemma_wrap_envelope(request: ServiceRequest<ReadHoldingRegisters>) {
    }
}

impl Service for ReadInputRegisters {
    type Request = AddressRange;

    type Response = Vec<Indexed<u16>>;

    open spec fn spec_function_code() -> FunctionCode {
        FunctionCode::ReadInputRegisters
    }

    open spec fn spec_request_valid(request: AddressRange) -> Result<(), InvalidRequestReason> {
        request.spec_check_validity_for_registers()
    }

    open spec fn spec_wrap(request: ServiceRequest<ReadInputRegisters>) -> Request {
        Request::ReadInputRegisters(request)
    }

    fn request_function_code() -> (c: FunctionCode) {
        FunctionCode::ReadInputRegisters
    }

    fn check_request_validity(request: &AddressRange) -> (r: Result<(), InvalidRequestReason>) {
        request.check_validity_for_registers()
    }

    fn create_request(request: ServiceRequest<ReadInputRegisters>) -> (r: Request) {
        Request::ReadInputRegisters(request)
    }

    proof fn lemma_wrap_envelope(request: ServiceRequest<ReadInputRegisters>) {
    }
}

impl Service for WriteSingleCoil {
    type Request = Indexed<bool>;

    type Response = Indexed<bool>;

    open spec fn spec_function_code() -> FunctionCode {
        FunctionCode::WriteSingleCoil
    }

    /// A single indexed boolean addresses one coil with one of its two
    /// states; every such payload is within the protocol's rules.
    open spec fn spec_request_valid(request: Indexed<bool>) -> Result<(), InvalidRequestReason> {
        Ok(())
    }

    open spec fn spec_wrap(request: ServiceRequest<WriteSingleCoil>) -> Request {
        Request::WriteSingleCoil(request)
    }

    fn request_function_code() -> (c: FunctionCode) {
        FunctionCode::WriteSingleCoil
    }

    fn check_request_validity(request: &Indexed<bool>) -> (r: Result<(), InvalidRequestReason>) {
        Ok(())
    }

    fn create_request(request: ServiceRequest<WriteSingleCoil>) -> (r: Request) {
        Request::WriteSingleCoil(request)
    }

    proof fn lemma_wrap_envelope(request: ServiceRequest<WriteSingleCoil>) {
    }
}

} // verus!
