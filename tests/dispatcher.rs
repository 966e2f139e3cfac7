use surreal_simple_client::{DispatchAction, DispatchEvent, Dispatcher};
use surreal_simple_client::{SurrealQueryResult, SurrealResponseData, SurrealResponseResult};

fn json(text: &str) -> serde_json::Value {
    serde_json::from_str(text).unwrap()
}

fn reply(id: &str, name: &str) -> SurrealResponseData {
    SurrealResponseData {
        id: id.to_string(),
        result: SurrealResponseResult::Data(vec![SurrealQueryResult::new(
            "1ms".to_string(),
            "OK".to_string(),
            vec![json(&format!("{{\"name\":\"{}\"}}", name))],
        )]),
    }
}

fn register(d: &mut Dispatcher<u32>, id: &str, handle: u32) -> DispatchAction<u32> {
    d.step(DispatchEvent::Registration { id: id.to_string(), handle })
}

/// The handle and the id of the reply of a `Resolve`, or `None` for any other action.
fn resolved(action: DispatchAction<u32>) -> Option<(u32, String)> {
    match action {
        DispatchAction::Resolve { handle, response } => Some((handle, response.id)),
        _ => None,
    }
}

fn first_name(action: DispatchAction<u32>) -> Option<serde_json::Value> {
    match action {
        DispatchAction::Resolve { response, .. } => response.first_result(0).cloned(),
        _ => None,
    }
}

#[test]
fn replies_resolve_their_own_call_in_any_order() {
    let mut d = Dispatcher::new();
    assert!(matches!(register(&mut d, "r1", 1), DispatchAction::Nothing));
    assert!(matches!(register(&mut d, "r2", 2), DispatchAction::Nothing));
    assert!(matches!(register(&mut d, "r3", 3), DispatchAction::Nothing));
    assert_eq!(resolved(d.step(DispatchEvent::Response(reply("r3", "c")))), Some((3, "r3".to_string())));
    assert_eq!(resolved(d.step(DispatchEvent::Response(reply("r1", "a")))), Some((1, "r1".to_string())));
    assert_eq!(resolved(d.step(DispatchEvent::Response(reply("r2", "b")))), Some((2, "r2".to_string())));
    assert!(!d.is_pending(&"r1".to_string()));
    assert!(!d.is_pending(&"r2".to_string()));
    assert!(!d.is_pending(&"r3".to_string()));
}

#[test]
fn overlapping_calls_get_their_own_envelope() {
    let mut d = Dispatcher::new();
    register(&mut d, "A", 10);
    register(&mut d, "B", 20);
    let b = d.step(DispatchEvent::Response(reply("B", "bee")));
    assert!(d.is_pending(&"A".to_string()));
    assert!(!d.is_pending(&"B".to_string()));
    match b {
        DispatchAction::Resolve { handle, response } => {
            assert_eq!(handle, 20);
            assert_eq!(response.id, "B");
            assert_eq!(response.first_result(0), Some(&json("{\"name\":\"bee\"}")));
        }
        _ => panic!("the reply for B resolved nobody"),
    }
    let a = d.step(DispatchEvent::Response(reply("A", "ay")));
    assert_eq!(first_name(a), Some(json("{\"name\":\"ay\"}")));
    assert!(!d.is_pending(&"A".to_string()));
}

#[test]
fn reply_with_unknown_id_is_dropped() {
    let mut d = Dispatcher::new();
    register(&mut d, "known", 1);
    assert!(matches!(d.step(DispatchEvent::Response(reply("other", "x"))), DispatchAction::Nothing));
    assert!(d.is_running());
    assert!(d.is_pending(&"known".to_string()));
    assert_eq!(resolved(d.step(DispatchEvent::Response(reply("known", "x")))), Some((1, "known".to_string())));
}

#[test]
fn malformed_frame_is_dropped() {
    let mut d = Dispatcher::new();
    register(&mut d, "p", 7);
    assert!(matches!(d.step(DispatchEvent::Malformed), DispatchAction::Nothing));
    assert!(d.is_running());
    assert!(d.is_pending(&"p".to_string()));
}

#[test]
fn second_reply_with_same_id_is_dropped() {
    let mut d = Dispatcher::new();
    register(&mut d, "once", 5);
    assert_eq!(resolved(d.step(DispatchEvent::Response(reply("once", "x")))), Some((5, "once".to_string())));
    assert!(matches!(d.step(DispatchEvent::Response(reply("once", "y"))), DispatchAction::Nothing));
}

#[test]
fn query_reply_first_result_of_statement_zero() {
    let mut d = Dispatcher::new();
    register(&mut d, "q1", 1);
    let response = SurrealResponseData {
        id: "q1".to_string(),
        result: SurrealResponseResult::Data(vec![SurrealQueryResult::new(
            "1ms".to_string(),
            "OK".to_string(),
            vec![json("{\"name\":\"x\",\"id\":\"stuff:abc\"}")],
        )]),
    };
    match d.step(DispatchEvent::Response(response)) {
        DispatchAction::Resolve { handle, response } => {
            assert_eq!(handle, 1);
            assert_eq!(response.first_result(0), Some(&json("{\"name\":\"x\",\"id\":\"stuff:abc\"}")));
        }
        _ => panic!("the reply resolved nobody"),
    }
}

#[test]
fn registering_a_pending_id_releases_the_older_handle() {
    let mut d = Dispatcher::new();
    register(&mut d, "dup", 1);
    assert!(matches!(register(&mut d, "dup", 2), DispatchAction::Release(1)));
    assert_eq!(resolved(d.step(DispatchEvent::Response(reply("dup", "x")))), Some((2, "dup".to_string())));
}

#[test]
fn cancellation_releases_the_handle() {
    let mut d = Dispatcher::new();
    register(&mut d, "c", 3);
    assert!(matches!(d.step(DispatchEvent::Cancellation { id: "c".to_string() }), DispatchAction::Release(3)));
    assert!(!d.is_pending(&"c".to_string()));
    assert!(matches!(d.step(DispatchEvent::Cancellation { id: "c".to_string() }), DispatchAction::Nothing));
    assert!(matches!(d.step(DispatchEvent::Response(reply("c", "x"))), DispatchAction::Nothing));
}

#[test]
fn closed_transport_stops_the_dispatcher() {
    let mut d = Dispatcher::new();
    register(&mut d, "p", 1);
    assert!(matches!(d.step(DispatchEvent::Closed), DispatchAction::Stop));
    assert!(!d.is_running());
    assert!(matches!(d.step(DispatchEvent::Response(reply("p", "x"))), DispatchAction::Nothing));
    assert!(matches!(register(&mut d, "q", 2), DispatchAction::Release(2)));
    assert!(matches!(d.step(DispatchEvent::Closed), DispatchAction::Nothing));
}
