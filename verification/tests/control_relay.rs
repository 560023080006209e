use nex_relay::control::{parse_control, Control};
use nex_relay::frames::default_subject;
use nex_relay::registry::Registry;
use nex_relay::relay::{handle_text_frame, ingest_upstream_at, plan_broadcast};

fn b(s: &str) -> Vec<u8> {
    s.as_bytes().to_vec()
}

fn as_json(bytes: &[u8]) -> serde_json::Value {
    serde_json::from_slice(bytes).expect("frame must be valid JSON")
}

#[test]
fn parse_control_accepts_well_formed_subscribe() {
    let frame = b("{\"action\":\"subscribe\",\"subject\":\"market.btc-usd.trades\"}");
    match parse_control(&frame) {
        Control::Subscribe(s) => assert_eq!(s, b("market.btc-usd.trades")),
        Control::Unknown => panic!("expected a subscribe"),
    }
}

#[test]
fn parse_control_is_permissive_about_shape() {
    // extra fields and another key order still mean subscribe
    let frame = b("{\"subject\":\"x\",\"extra\":[1,2,{}],\"action\":\"subscribe\"}");
    match parse_control(&frame) {
        Control::Subscribe(s) => assert_eq!(s, b("x")),
        Control::Unknown => panic!("expected a subscribe"),
    }
}

#[test]
fn parse_control_rejects_everything_else() {
    for text in [
        "hello",
        "{\"foo\":1}",
        "{\"action\":\"unsubscribe\",\"subject\":\"x\"}",
        "{\"action\":\"subscribe\"}",
        "{\"action\":\"subscribe\",\"subject\":7}",
        "{\"action\":7,\"subject\":\"x\"}",
        "[\"action\",\"subscribe\"]",
        "",
    ] {
        assert!(
            matches!(parse_control(&b(text)), Control::Unknown),
            "{:?} must classify as unknown",
            text
        );
    }
}

#[test]
fn malformed_frame_leaves_connection_state_alone() {
    let mut reg = Registry::new();
    reg.register(5);
    for text in ["hello", "{\"foo\":1}", "\"just a string\""] {
        let confirm = handle_text_frame(&mut reg, 5, &b(text));
        assert!(confirm.is_none(), "{:?} must yield no confirmation", text);
        assert!(reg.is_registered(5));
        // the subscription set is unchanged: still no deliveries
        let ids = reg.recipients(&default_subject());
        assert!(ids.is_empty());
    }
}

#[test]
fn subscribe_to_absent_client_is_noop() {
    let mut reg = Registry::new();
    let confirm = handle_text_frame(
        &mut reg,
        11,
        &b("{\"action\":\"subscribe\",\"subject\":\"market.btc-usd.trades\"}"),
    );
    assert!(confirm.is_none());
    assert_eq!(reg.client_count(), 0);
}

#[test]
fn subscribe_then_broadcast_yields_confirmation_then_data() {
    let mut reg = Registry::new();
    reg.register(8);
    // the client's outbound stream, in enqueue order
    let mut outbound: Vec<Vec<u8>> = Vec::new();

    let confirm = handle_text_frame(
        &mut reg,
        8,
        &b("{\"action\":\"subscribe\",\"subject\":\"market.btc-usd.trades\"}"),
    );
    outbound.push(confirm.expect("a registered subscriber gets a confirmation"));

    let payload = b("{\"price\":30000.5}");
    let (frame, ids) = plan_broadcast(&reg, &b("market.btc-usd.trades"), &payload, Some(1700000000000));
    assert_eq!(ids, vec![8]);
    for _ in &ids {
        outbound.push(frame.clone());
    }

    assert_eq!(outbound.len(), 2);
    let first = as_json(&outbound[0]);
    assert_eq!(first.get("type").and_then(|v| v.as_str()), Some("subscription_confirmed"));
    assert_eq!(first.get("subject").and_then(|v| v.as_str()), Some("market.btc-usd.trades"));
    assert!(first.get("time").and_then(|v| v.as_str()).is_some());

    let second = as_json(&outbound[1]);
    assert_eq!(second.get("subject").and_then(|v| v.as_str()), Some("market.btc-usd.trades"));
    assert_eq!(second.get("timestamp").and_then(|v| v.as_u64()), Some(1700000000000));
    let data = second.get("data").expect("data field");
    assert_eq!(data.get("price").and_then(|v| v.as_f64()), Some(30000.5));
}

#[test]
fn broadcast_skips_other_subjects_and_reaches_wildcard() {
    let mut reg = Registry::new();
    reg.register(1);
    reg.register(2);
    handle_text_frame(&mut reg, 1, &b("{\"action\":\"subscribe\",\"subject\":\"market.eth-usd.trades\"}"));
    handle_text_frame(&mut reg, 2, &b("{\"action\":\"subscribe\",\"subject\":\"*\"}"));
    let (_, ids) = plan_broadcast(&reg, &b("market.btc-usd.trades"), &b("{}"), None);
    assert_eq!(ids, vec![2]);
}

#[test]
fn ingest_reencodes_valid_payload() {
    let frame = ingest_upstream_at(&b("market.btc-usd.trades"), &b("  {\"price\": 1, \"side\": \"buy\"}  "), 42)
        .expect("valid JSON payload must produce a frame");
    let v = as_json(&frame);
    assert_eq!(v.get("subject").and_then(|x| x.as_str()), Some("market.btc-usd.trades"));
    assert_eq!(v.get("timestamp").and_then(|x| x.as_u64()), Some(42));
    assert_eq!(
        v.get("data").and_then(|d| d.get("price")).and_then(|x| x.as_u64()),
        Some(1)
    );
}

#[test]
fn ingest_drops_malformed_payload() {
    assert!(ingest_upstream_at(&b("s"), &b("not json"), 1).is_none());
    assert!(ingest_upstream_at(&b("s"), &b("{\"unterminated\":"), 1).is_none());
    assert!(ingest_upstream_at(&b("s"), &b(""), 1).is_none());
}

#[test]
fn confirmation_escapes_subject() {
    let mut reg = Registry::new();
    reg.register(4);
    let confirm = handle_text_frame(
        &mut reg,
        4,
        &b("{\"action\":\"subscribe\",\"subject\":\"odd\\\"sub\\\\ject\"}"),
    )
    .expect("confirmation");
    let v = as_json(&confirm);
    assert_eq!(v.get("subject").and_then(|x| x.as_str()), Some("odd\"sub\\ject"));
}

#[test]
fn register_fresh_allocates_live_identity() {
    let mut reg = Registry::new();
    let id = nex_relay::relay::register_fresh(&mut reg);
    assert!(reg.is_registered(id));
    assert_eq!(reg.client_count(), 1);
    let other = nex_relay::relay::register_fresh(&mut reg);
    assert!(reg.is_registered(other));
    // identities may collide (they are random); the table stays consistent
    assert_eq!(reg.client_count(), if id == other { 1 } else { 2 });
}
