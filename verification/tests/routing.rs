//! Waiter registration, dispatch, and reply classification.
use hdcomm::error::RPCError;
use hdcomm::message::{Message, Payload};
use hdcomm::proxy::{
    ping_reply, ping_request, register_call_waiter, IdGenerator,
};
use hdcomm::router::{dispatch, RouterAction, WaiterTable};
use hdcomm::rpc;
use hdcomm::stream;

fn rpc_message(id: u16, payload: rpc::Payload) -> Message {
    Message {
        payload: Payload::RPC(rpc::Message { id, payload }),
    }
}

#[test]
fn identifier_exclusivity() {
    // Registering a waiter for identifier 42 twice without resolving the
    // first attempt fails the second registration; after the first
    // resolves, a new registration for 42 succeeds.
    let mut table: WaiterTable<&str> = WaiterTable::new();
    assert!(table.register(42, "first", false).is_ok());
    assert_eq!(table.register(42, "second", false), Err("second"));
    assert_eq!(
        register_call_waiter(&mut table, 42, "second", false),
        Err(RPCError::TooManyInFlight)
    );

    assert_eq!(table.remove(42), Some("first"));
    assert!(table.register(42, "third", false).is_ok());
}

#[test]
fn stale_waiter_is_replaced() {
    // An abandoned occupant may be replaced in place.
    let mut table: WaiterTable<&str> = WaiterTable::new();
    assert!(table.register(8, "abandoned", false).is_ok());
    assert!(table.register(8, "fresh", true).is_ok());
    assert_eq!(table.remove(8), Some("fresh"));
}

#[test]
fn dispatch_resolves_only_the_matching_waiter() {
    // Waiters for identifiers 1 and 2; a reply for 2 resolves only the
    // identifier-2 waiter and leaves identifier 1 pending.
    let mut table: WaiterTable<&str> = WaiterTable::new();
    table.register(1, "one", false).unwrap();
    table.register(2, "two", false).unwrap();

    let reply = rpc_message(2, rpc::Payload::PingRep(rpc::PingRepBody { time_ms: 7 }));
    match dispatch(&mut table, &reply) {
        RouterAction::Resolve { waiter, payload } => {
            assert_eq!(waiter, "two");
            assert_eq!(payload, rpc::Payload::PingRep(rpc::PingRepBody { time_ms: 7 }));
        }
        _ => panic!("expected resolve"),
    }
    assert!(!table.contains(2));
    assert!(table.contains(1));
    assert_eq!(table.get(1), Some(&"one"));
}

#[test]
fn dispatch_discards_unsolicited_reply() {
    // A reply whose identifier has no waiter is discarded without error
    // and without affecting any other waiter.
    let mut table: WaiterTable<&str> = WaiterTable::new();
    table.register(1, "one", false).unwrap();

    let unsolicited = rpc_message(999, rpc::Payload::PingRep(rpc::PingRepBody { time_ms: 1 }));
    match dispatch(&mut table, &unsolicited) {
        RouterAction::Discard => {}
        _ => panic!("expected discard"),
    }
    assert_eq!(table.len(), 1);
    assert!(table.contains(1));
}

#[test]
fn dispatch_publishes_stream_messages() {
    let mut table: WaiterTable<&str> = WaiterTable::new();
    table.register(1, "one", false).unwrap();
    let body = stream::AhrsBody {
        acc: [1, 2, 3],
        gyro: [4, 5, 6],
        mag: [7, 8, 9],
        time_ms: 10,
    };
    let telemetry = Message {
        payload: Payload::Stream(stream::Message { payload: stream::Payload::Ahrs(body) }),
    };
    match dispatch(&mut table, &telemetry) {
        RouterAction::Publish { payload } => {
            assert_eq!(payload, stream::Payload::Ahrs(body));
        }
        _ => panic!("expected publish"),
    }
    // The waiter table is untouched by stream traffic.
    assert!(table.contains(1));
}

#[test]
fn id_generation_counts_up_and_wraps() {
    let mut ids = IdGenerator::new();
    assert_eq!(ids.gen_id(), 1);
    assert_eq!(ids.gen_id(), 2);
    for _ in 0..(u16::MAX as u32 - 3) {
        ids.gen_id();
    }
    assert_eq!(ids.gen_id(), u16::MAX);
    // The space wraps modulo 2^16.
    assert_eq!(ids.gen_id(), 0);
    assert_eq!(ids.gen_id(), 1);
}

#[test]
fn reply_classification_accepts_expected_variant() {
    let body = rpc::PingRepBody { time_ms: 55 };
    assert_eq!(ping_reply(rpc::Payload::PingRep(body)), Ok(body));
}

#[test]
fn reply_classification_rejects_mismatched_variant() {
    // A reply matched by identifier whose variant does not fit the request
    // kind is a bad response, for every call kind.
    assert_eq!(
        ping_reply(rpc::Payload::MoveRep(rpc::MoveRepBody::Accepted)),
        Err(RPCError::BadResponse)
    );
    assert_eq!(
        hdcomm::proxy::move_cmd_reply(rpc::Payload::PingRep(rpc::PingRepBody { time_ms: 0 })),
        Err(RPCError::BadResponse)
    );
    assert_eq!(
        hdcomm::proxy::move_status_reply(rpc::Payload::MoveCancelRep(())),
        Err(RPCError::BadResponse)
    );
    assert_eq!(
        hdcomm::proxy::move_cancel_reply(rpc::Payload::PingReq(())),
        Err(RPCError::BadResponse)
    );
    assert_eq!(
        hdcomm::proxy::pid_param_update_reply(rpc::Payload::MoveStatusReq(())),
        Err(RPCError::BadResponse)
    );
    assert_eq!(
        hdcomm::proxy::raw_teleop_reply(rpc::Payload::PingReq(())),
        Err(RPCError::BadResponse)
    );
}

#[test]
fn request_builders_tag_the_request_variant() {
    let m = ping_request(77, ());
    assert_eq!(m, rpc_message(77, rpc::Payload::PingReq(())));
    let body = rpc::RawTeleOpReqBody {
        steering: None,
        wheel_l: Some(f32::to_bits(0.5)),
        wheel_r: None,
    };
    let m2 = hdcomm::proxy::raw_teleop_request(78, body);
    assert_eq!(m2, rpc_message(78, rpc::Payload::RawTeleOpReq(body)));
}
