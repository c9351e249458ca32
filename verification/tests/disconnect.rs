//! Disconnection propagation through single-resolution waiters.
//!
//! The waiter table stores the resolving halves of single-resolution
//! channels. When the router's loop ends — transport gone — the table is
//! dropped or cleared, which drops every resolving half; each awaiting
//! caller then resolves as disconnected without polling or timeouts.
use hdcomm::router::{dispatch, RouterAction, WaiterTable};
use hdcomm::message::{Message, Payload};
use hdcomm::rpc;
use tokio::sync::oneshot;

fn reply(id: u16, time_ms: u32) -> Message {
    Message {
        payload: Payload::RPC(rpc::Message {
            id,
            payload: rpc::Payload::PingRep(rpc::PingRepBody { time_ms }),
        }),
    }
}

#[test]
fn dropping_the_table_resolves_pending_calls_as_disconnected() {
    let rt = tokio::runtime::Builder::new_current_thread()
        .build()
        .unwrap();
    rt.block_on(async {
        let mut table: WaiterTable<oneshot::Sender<rpc::Payload>> = WaiterTable::new();
        let (tx1, rx1) = oneshot::channel();
        let (tx2, rx2) = oneshot::channel();
        table.register(1, tx1, false).unwrap();
        table.register(2, tx2, false).unwrap();

        // The transport dies mid-flight: every waiter is dropped.
        drop(table);

        // Both pending awaits resolve with the channel-closed error, the
        // condition surfaced to callers as disconnection.
        assert!(rx1.await.is_err());
        assert!(rx2.await.is_err());
    });
}

#[test]
fn clearing_the_table_resolves_pending_calls_as_disconnected() {
    let rt = tokio::runtime::Builder::new_current_thread()
        .build()
        .unwrap();
    rt.block_on(async {
        let mut table: WaiterTable<oneshot::Sender<rpc::Payload>> = WaiterTable::new();
        let (tx, rx) = oneshot::channel();
        table.register(7, tx, false).unwrap();
        table.clear();
        assert!(rx.await.is_err());
    });
}

#[test]
fn resolved_waiter_delivers_payload_to_awaiting_caller() {
    let rt = tokio::runtime::Builder::new_current_thread()
        .build()
        .unwrap();
    rt.block_on(async {
        let mut table: WaiterTable<oneshot::Sender<rpc::Payload>> = WaiterTable::new();
        let (tx, rx) = oneshot::channel();
        table.register(3, tx, false).unwrap();

        match dispatch(&mut table, &reply(3, 30)) {
            RouterAction::Resolve { waiter, payload } => {
                waiter.send(payload).ok();
            }
            _ => panic!("expected resolve"),
        }
        assert_eq!(
            rx.await.unwrap(),
            rpc::Payload::PingRep(rpc::PingRepBody { time_ms: 30 })
        );
    });
}

#[test]
fn abandoned_call_frees_its_identifier() {
    // A caller that abandons its wait leaves a closed resolving half
    // behind; the next registration under that identifier may replace it.
    let rt = tokio::runtime::Builder::new_current_thread()
        .build()
        .unwrap();
    rt.block_on(async {
        let mut table: WaiterTable<oneshot::Sender<rpc::Payload>> = WaiterTable::new();
        let (tx, rx) = oneshot::channel::<rpc::Payload>();
        table.register(5, tx, false).unwrap();
        drop(rx);

        let stale = match table.get(5) {
            Some(sender) => sender.is_closed(),
            None => false,
        };
        assert!(stale);

        let (tx2, _rx2) = oneshot::channel();
        assert!(table.register(5, tx2, stale).is_ok());
    });
}
