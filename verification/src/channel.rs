//! The queue envelope handed to the transport task, and the declarations
//! of the channel primitives it is built from.
//!
//! The shared request queue is a bounded multi-producer/single-consumer
//! channel; each envelope carries its own single-use response-delivery
//! handle, so every request is correlated to exactly one reply.

use vstd::prelude::*;

use crate::error::Error;
use crate::function::FunctionCode;
use crate::service::{
    ReadCoils, ReadDiscreteInputs, ReadHoldingRegisters, ReadInputRegisters, Service,
    WriteSingleCoil,
};
use crate::session::UnitIdentifier;

verus! {

/// tokio's single-use response-delivery producer handle; opaque here, it
/// is carried through the envelope to the transport task.
#[verifier::external_type_specification]
#[verifier::external_body]
#[verifier::reject_recursive_types(T)]
pub struct ExOneshotSender<T>(tokio::sync::oneshot::Sender<T>);

/// tokio's single-use response-delivery consumer handle; opaque here, it
/// is returned to the caller, who awaits it outside the verified core.
#[verifier::external_type_specification]
#[verifier::external_body]
#[verifier::reject_recursive_types(T)]
pub struct ExOneshotReceiver<T>(tokio::sync::oneshot::Receiver<T>);

/// tokio's error for a response handle whose producer side was dropped
/// without a value; opaque here, it reaches this core only through the
/// consumer handle's signature.
#[verifier::external_type_specification]
#[verifier::external_body]
pub struct ExOneshotRecvError(tokio::sync::oneshot::error::RecvError);

/// tokio's bounded queue producer handle; opaque here, a session owns one
/// and submits envelopes through it.
#[verifier::external_type_specification]
#[verifier::external_body]
#[verifier::reject_recursive_types(T)]
pub struct ExMpscSender<T>(tokio::sync::mpsc::Sender<T>);

/// Relies on tokio::sync::oneshot::channel: returns a fresh
/// producer/consumer pair over which at most one value is ever delivered.
#[verifier::external_body]
pub(crate) fn response_channel<T>() -> (tokio::sync::oneshot::Sender<T>, tokio::sync::oneshot::Receiver<T>) {
    tokio::sync::oneshot::channel()
}

/// One validated request on its way to the transport task: the addressed
/// unit, the operation's payload, and the producer side of the
/// response-delivery handle.
pub struct ServiceRequest<S: Service> {
    pub id: UnitIdentifier,
    pub argument: S::Request,
    pub reply_to: tokio::sync::oneshot::Sender<Result<S::Response, Error>>,
}

/// The queue envelope: one tag per supported operation. The transport
/// task is the sole consumer; for each envelope it must deliver exactly
/// one result on the embedded handle.
pub enum Request {
    ReadCoils(ServiceRequest<ReadCoils>),
    ReadDiscreteInputs(ServiceRequest<ReadDiscreteInputs>),
    ReadHoldingRegisters(ServiceRequest<ReadHoldingRegisters>),
    ReadInputRegisters(ServiceRequest<ReadInputRegisters>),
    WriteSingleCoil(ServiceRequest<WriteSingleCoil>),
}

/// The function code an envelope's tag stands for.
pub open spec fn function_code_of(r: Request) -> FunctionCode {
    match r {
        Request::ReadCoils(_) => FunctionCode::ReadCoils,
        Request::ReadDiscreteInputs(_) => FunctionCode::ReadDiscreteInputs,
        Request::ReadHoldingRegisters(_) => FunctionCode::ReadHoldingRegisters,
        Request::ReadInputRegisters(_) => FunctionCode::ReadInputRegisters,
        Request::WriteSingleCoil(_) => FunctionCode::WriteSingleCoil,
    }
}

/// The unit identifier an envelope carries.
pub open spec fn unit_id_of(r: Request) -> UnitIdentifier {
    match r {
        Request::ReadCoils(sr) => sr.id,
        Request::ReadDiscreteInputs(sr) => sr.id,
        Request::ReadHoldingRegisters(sr) => sr.id,
        Request::ReadInputRegisters(sr) => sr.id,
        Request::WriteSingleCoil(sr) => sr.id,
    }
}

} // verus!
