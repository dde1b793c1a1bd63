use rodbus::channel::Request;
use rodbus::error::{Error, InvalidRequestReason};
use rodbus::service::{
    ReadCoils, ReadDiscreteInputs, ReadHoldingRegisters, ReadInputRegisters, WriteSingleCoil,
};
use rodbus::session::{AddressRange, Indexed, Session, UnitIdentifier};

fn runtime() -> tokio::runtime::Runtime {
    tokio::runtime::Builder::new_current_thread()
        .build()
        .unwrap()
}

#[test]
fn invalid_request_is_rejected_before_any_enqueue() {
    let (queue_tx, mut queue_rx) = tokio::sync::mpsc::channel::<Request>(4);
    let session = Session::new(UnitIdentifier::new(7), queue_tx);

    let result = session.start_service_call::<ReadCoils>(AddressRange::new(3, 0));
    match result {
        Err(Error::InvalidRequest(InvalidRequestReason::CountOfZero)) => {}
        _ => panic!("expected the zero-count rejection"),
    }

    // The queue never saw an envelope for the rejected call.
    assert!(queue_rx.try_recv().is_err());
}

#[test]
fn valid_request_builds_one_matching_envelope() {
    let (queue_tx, mut queue_rx) = tokio::sync::mpsc::channel::<Request>(4);
    let session = Session::new(UnitIdentifier::new(7), queue_tx);

    let (envelope, _rx) = session
        .start_service_call::<ReadHoldingRegisters>(AddressRange::new(10, 3))
        .unwrap();

    match envelope {
        Request::ReadHoldingRegisters(sr) => {
            assert_eq!(sr.id.value(), 7);
            assert_eq!(sr.argument.start, 10);
            assert_eq!(sr.argument.count, 3);
        }
        _ => panic!("expected the holding-register tag"),
    }

    // Exactly the one submitted envelope reaches the queue consumer.
    let rt = runtime();
    let (envelope, _rx) = session
        .start_service_call::<ReadHoldingRegisters>(AddressRange::new(10, 3))
        .unwrap();
    rt.block_on(async {
        session.channel().send(envelope).await.unwrap();
        let received = queue_rx.recv().await.unwrap();
        match received {
            Request::ReadHoldingRegisters(sr) => {
                assert_eq!(sr.id.value(), 7);
                assert_eq!(sr.argument.start, 10);
                assert_eq!(sr.argument.count, 3);
            }
            _ => panic!("expected the holding-register tag"),
        }
        assert!(queue_rx.try_recv().is_err());
    });
}

#[test]
fn prepare_request_wraps_the_payload_with_the_given_handle() {
    let (queue_tx, _queue_rx) = tokio::sync::mpsc::channel::<Request>(1);
    let session = Session::new(UnitIdentifier::new(9), queue_tx);
    assert_eq!(session.unit_id().value(), 9);

    let (reply_tx, _reply_rx) =
        tokio::sync::oneshot::channel::<Result<Vec<Indexed<u16>>, Error>>();
    let envelope = session
        .prepare_request::<ReadInputRegisters>(AddressRange::new(5, 2), reply_tx)
        .unwrap();
    match envelope {
        Request::ReadInputRegisters(sr) => {
            assert_eq!(sr.id.value(), 9);
            assert_eq!(sr.argument.start, 5);
            assert_eq!(sr.argument.count, 2);
        }
        _ => panic!("expected the input-register tag"),
    }
}

#[test]
fn prepare_request_reports_the_exact_validation_reason() {
    let (queue_tx, _queue_rx) = tokio::sync::mpsc::channel::<Request>(1);
    let session = Session::new(UnitIdentifier::new(9), queue_tx);

    let (reply_tx, _reply_rx) =
        tokio::sync::oneshot::channel::<Result<Vec<Indexed<bool>>, Error>>();
    let result =
        session.prepare_request::<ReadDiscreteInputs>(AddressRange::new(0, 2001), reply_tx);
    match result {
        Err(Error::InvalidRequest(InvalidRequestReason::CountTooBigForType)) => {}
        _ => panic!("expected the too-large rejection"),
    }

    let (reply_tx, _reply_rx) =
        tokio::sync::oneshot::channel::<Result<Vec<Indexed<bool>>, Error>>();
    let result =
        session.prepare_request::<ReadDiscreteInputs>(AddressRange::new(65530, 10), reply_tx);
    match result {
        Err(Error::InvalidRequest(InvalidRequestReason::AddressOverflow)) => {}
        _ => panic!("expected the overflow rejection"),
    }
}

#[test]
fn write_single_coil_is_always_valid_and_tagged() {
    let (queue_tx, _queue_rx) = tokio::sync::mpsc::channel::<Request>(4);
    let session = Session::new(UnitIdentifier::new(3), queue_tx);

    let (envelope, _rx) = session
        .start_service_call::<WriteSingleCoil>(Indexed::new(20, true))
        .unwrap();

    match envelope {
        Request::WriteSingleCoil(sr) => {
            assert_eq!(sr.id.value(), 3);
            assert_eq!(sr.argument.index, 20);
            assert!(sr.argument.value);
        }
        _ => panic!("expected the write-single-coil tag"),
    }
}

#[test]
fn delivered_response_comes_back_exactly_as_sent() {
    let (queue_tx, mut queue_rx) = tokio::sync::mpsc::channel::<Request>(1);
    let session = Session::new(UnitIdentifier::default(), queue_tx);

    let (envelope, response_rx) = session
        .start_service_call::<ReadHoldingRegisters>(AddressRange::new(10, 3))
        .unwrap();

    let rt = runtime();
    rt.block_on(async {
        session.channel().send(envelope).await.unwrap();

        // The transport task's half: drain the queue, deliver the decoded
        // response on the envelope's own handle.
        let received = queue_rx.recv().await.unwrap();
        match received {
            Request::ReadHoldingRegisters(sr) => {
                let response =
                    vec![Indexed::new(10, 100u16), Indexed::new(11, 200u16), Indexed::new(12, 300u16)];
                sr.reply_to.send(Ok(response)).unwrap();
            }
            _ => panic!("expected the holding-register tag"),
        }

        let delivered = response_rx.await.unwrap().unwrap();
        assert_eq!(
            delivered,
            vec![Indexed::new(10, 100u16), Indexed::new(11, 200u16), Indexed::new(12, 300u16)]
        );
    });
}

#[test]
fn dropped_response_handle_resolves_to_shutdown() {
    let (queue_tx, queue_rx) = tokio::sync::mpsc::channel::<Request>(1);
    let session = Session::new(UnitIdentifier::default(), queue_tx);

    let (envelope, response_rx) = session
        .start_service_call::<ReadCoils>(AddressRange::new(0, 8))
        .unwrap();

    // The transport shuts down mid-flight: the envelope, and with it the
    // producer side of the response handle, is dropped without a value.
    drop(envelope);
    drop(queue_rx);

    let rt = runtime();
    let outcome: Result<Vec<Indexed<bool>>, Error> = rt.block_on(async {
        match response_rx.await {
            Ok(delivered) => delivered,
            Err(_) => Err(Error::Shutdown),
        }
    });
    assert_eq!(outcome, Err(Error::Shutdown));
}

#[test]
fn error_delivered_on_the_handle_is_propagated_verbatim() {
    let (queue_tx, mut queue_rx) = tokio::sync::mpsc::channel::<Request>(1);
    let session = Session::new(UnitIdentifier::default(), queue_tx);

    let (envelope, response_rx) = session
        .start_service_call::<ReadCoils>(AddressRange::new(0, 8))
        .unwrap();

    let rt = runtime();
    rt.block_on(async {
        session.channel().send(envelope).await.unwrap();
        let received = queue_rx.recv().await.unwrap();
        match received {
            Request::ReadCoils(sr) => {
                sr.reply_to.send(Err(Error::Shutdown)).unwrap();
            }
            _ => panic!("expected the coil tag"),
        }
        let delivered = response_rx.await.unwrap();
        assert_eq!(delivered, Err(Error::Shutdown));
    });
}
