use nex_relay::frames::{
    default_subject, render_confirmation_frame, render_event_frame, render_trade_payload,
};
use nex_relay::gen::{apply_step, GenState, MAX_PRICE_CENTS};
use nex_relay::relay::ingest_upstream;

fn b(s: &str) -> Vec<u8> {
    s.as_bytes().to_vec()
}

fn s(bytes: &[u8]) -> String {
    String::from_utf8(bytes.to_vec()).expect("frames are UTF-8")
}

#[test]
fn default_subject_bytes() {
    assert_eq!(s(&default_subject()), "market.btc-usd.trades");
}

#[test]
fn event_frame_exact_bytes_with_timestamp() {
    let frame = render_event_frame(&b("market.btc-usd.trades"), &b("{\"price\":1}"), Some(1700000000000));
    assert_eq!(
        s(&frame),
        "{\"subject\":\"market.btc-usd.trades\",\"data\":{\"price\":1},\"timestamp\":1700000000000}"
    );
}

#[test]
fn event_frame_exact_bytes_without_timestamp() {
    let frame = render_event_frame(&b("x"), &b("null"), None);
    assert_eq!(s(&frame), "{\"subject\":\"x\",\"data\":null}");
}

#[test]
fn confirmation_frame_exact_bytes() {
    let frame = render_confirmation_frame(&b("market.btc-usd.trades"), &b("2024-01-01T00:00:00+00:00"));
    assert_eq!(
        s(&frame),
        "{\"type\":\"subscription_confirmed\",\"subject\":\"market.btc-usd.trades\",\"time\":\"2024-01-01T00:00:00+00:00\"}"
    );
}

#[test]
fn subject_escaping_in_frames() {
    let frame = render_event_frame(&b("a\"b\\c\u{1}"), &b("0"), None);
    assert_eq!(s(&frame), "{\"subject\":\"a\\\"b\\\\c\\u0001\",\"data\":0}");
    let v: serde_json::Value = serde_json::from_slice(&frame).expect("escaped frame parses");
    assert_eq!(v.get("subject").and_then(|x| x.as_str()), Some("a\"b\\c\u{1}"));
}

#[test]
fn trade_payload_exact_bytes() {
    let payload = render_trade_payload(3000000, 5, true);
    assert_eq!(
        s(&payload),
        "{\"price\":30000.00,\"size\":0.005,\"side\":\"buy\",\"exchange\":\"nex\",\"pair\":\"BTC-USD\"}"
    );
    let payload = render_trade_payload(123456789, 999, false);
    assert_eq!(
        s(&payload),
        "{\"price\":1234567.89,\"size\":0.999,\"side\":\"sell\",\"exchange\":\"nex\",\"pair\":\"BTC-USD\"}"
    );
}

#[test]
fn apply_step_exact_values() {
    // +0.5% of 1000.00
    assert_eq!(apply_step(100000, 500), 100500);
    // -0.5%
    assert_eq!(apply_step(100000, -500), 99500);
    // flooring: 1 cent cannot shrink below 1 cent
    assert_eq!(apply_step(1, -500), 1);
    // a zero factor clamps at one cent
    assert_eq!(apply_step(1, -100000), 1);
    // the top of the representable band clamps
    assert_eq!(apply_step(MAX_PRICE_CENTS, 100000), MAX_PRICE_CENTS);
    // no perturbation, no change
    assert_eq!(apply_step(3000000, 0), 3000000);
}

#[test]
fn price_walk_stays_within_volatility_band() {
    // a fixed cycle of perturbations standing in for draws at volatility 0.5%
    let vol: i64 = 500;
    let mut state = GenState { price_cents: 3000000 };
    let mut k: i64 = -vol;
    for _ in 0..2000 {
        let prev = state.price_cents as u128;
        let payload = state.advance(k, 500, k % 2 == 0);
        let next = state.price_cents as u128;
        assert!(next >= prev * (100000 - vol as u128) / 100000);
        assert!(next <= prev * (100000 + vol as u128) / 100000);
        assert!(!payload.is_empty());
        k += 37;
        if k > vol {
            k = -vol;
        }
    }
}

#[test]
fn generated_trade_parses_and_walks() {
    let mut state = GenState { price_cents: 3000000 };
    for _ in 0..50 {
        let prev = state.price_cents as u128;
        let payload = state.next_trade(500);
        let next = state.price_cents as u128;
        // band check against the configured volatility of 0.5%
        assert!(next >= prev * 99500 / 100000);
        assert!(next <= prev * 100500 / 100000);
        let v: serde_json::Value = serde_json::from_slice(&payload).expect("payload is JSON");
        let side = v.get("side").and_then(|x| x.as_str()).expect("side");
        assert!(side == "buy" || side == "sell");
        assert_eq!(v.get("pair").and_then(|x| x.as_str()), Some("BTC-USD"));
        assert_eq!(v.get("exchange").and_then(|x| x.as_str()), Some("nex"));
        let price = v.get("price").and_then(|x| x.as_f64()).expect("price");
        assert!(price > 0.0);
        let size = v.get("size").and_then(|x| x.as_f64()).expect("size");
        assert!(size >= 0.001 && size < 1.0);
    }
}

#[test]
fn seeded_state_is_within_jitter_band() {
    for _ in 0..20 {
        let state = GenState::seeded(3000000);
        assert!(state.price_cents >= 3000000);
        assert!(state.price_cents < 3200000);
    }
}

#[test]
fn ingest_uses_fresh_timestamp() {
    let frame = ingest_upstream(&b("s"), &b("{\"a\":1}")).expect("frame");
    let v: serde_json::Value = serde_json::from_slice(&frame).expect("frame parses");
    // a fresh wall-clock timestamp: after 2020, present, and a u64
    let ts = v.get("timestamp").and_then(|x| x.as_u64()).expect("timestamp");
    assert!(ts > 1577836800000);
}
