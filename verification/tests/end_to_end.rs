//! End-to-end scenario: a ping request issued through the proxy logic, a
//! synthetic device reply on the wire, and the reply delivered back to the
//! caller through accumulator, router, and classification.
use hdcomm::accum::{Accumulator, FeedOutcome};
use hdcomm::codec::Codec;
use hdcomm::frame::encode_frame;
use hdcomm::message::{Message, Payload};
use hdcomm::proxy;
use hdcomm::router::{dispatch, RouterAction, WaiterTable};
use hdcomm::rpc;

#[test]
fn ping_round_trip_over_synthetic_wire() {
    // Proxy side: draw an identifier, register a waiter, build and frame
    // the request.
    let mut ids = proxy::IdGenerator::new();
    let id = ids.gen_id();
    let mut table: WaiterTable<u32> = WaiterTable::new();
    proxy::register_call_waiter(&mut table, id, 0xC0FFEE, false).unwrap();

    let request = proxy::ping_request(id, ());
    let host_codec = Codec::default();
    let mut host_to_device = Vec::new();
    host_codec.encode(&request, &mut host_to_device).unwrap();

    // Device side: recover the request from the wire, echo its identifier
    // in a ping reply.
    let mut device_acc = Accumulator::new();
    let request_seen = match device_acc.feed(&host_to_device) {
        FeedOutcome::Success { message, .. } => message,
        other => panic!("device failed to decode request: {:?}", other),
    };
    let echoed_id = match request_seen.payload {
        Payload::RPC(rpc::Message { id, payload: rpc::Payload::PingReq(()) }) => id,
        other => panic!("unexpected request {:?}", other),
    };
    assert_eq!(echoed_id, id);

    let reply = Message {
        payload: Payload::RPC(rpc::Message {
            id: echoed_id,
            payload: rpc::Payload::PingRep(rpc::PingRepBody { time_ms: 12345 }),
        }),
    };
    let mut device_to_host = encode_frame(&reply);

    // Host side: the router decodes the reply and resolves the waiter
    // registered under the echoed identifier.
    let mut host_rx = Codec::default();
    let decoded = host_rx.decode(&mut device_to_host).unwrap().unwrap();
    let (waiter, payload) = match dispatch(&mut table, &decoded) {
        RouterAction::Resolve { waiter, payload } => (waiter, payload),
        _ => panic!("expected resolve"),
    };
    assert_eq!(waiter, 0xC0FFEE);

    // The caller classifies the resolved payload.
    let body = proxy::ping_reply(payload).unwrap();
    assert_eq!(body.time_ms, 12345);
    assert!(!table.contains(id));
}
