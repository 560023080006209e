//! Renderers for the wire frames the relay sends: the broadcast data frame,
//! the subscription confirmation frame, and the synthetic trade payload.
//! Frames are built as UTF-8 bytes; every renderer states the exact byte
//! sequence it produces, so a frame is pinned down to the last byte.
use vstd::prelude::*;

verus! {

/// The bytes of `{"subject":"`.
pub open spec fn lit_ev_pre() -> Seq<u8> {
    seq![123u8, 34u8, 115u8, 117u8, 98u8, 106u8, 101u8, 99u8, 116u8, 34u8, 58u8, 34u8]
}

/// Appends the bytes of `{"subject":"`.
pub(crate) fn push_ev_pre(out: &mut Vec<u8>)
    ensures
        final(out)@ == old(out)@ + lit_ev_pre(),
{
    out.push(123u8);
    out.push(34u8);
    out.push(115u8);
    out.push(117u8);
    out.push(98u8);
    out.push(106u8);
    out.push(101u8);
    out.push(99u8);
    out.push(116u8);
    out.push(34u8);
    out.push(58u8);
    out.push(34u8);
    proof { assert(out@ =~= old(out)@ + lit_ev_pre()); }
}

/// The bytes of `","data":`.
pub open spec fn lit_ev_mid() -> Seq<u8> {
    seq![34u8, 44u8, 34u8, 100u8, 97u8, 116u8, 97u8, 34u8, 58u8]
}

/// Appends the bytes of `","data":`.
pub(crate) fn push_ev_mid(out: &mut Vec<u8>)
    ensures
        final(out)@ == old(out)@ + lit_ev_mid(),
{
    out.push(34u8);
    out.push(44u8);
    out.push(34u8);
    out.push(100u8);
    out.push(97u8);
    out.push(116u8);
    out.push(97u8);
    out.push(34u8);
    out.push(58u8);
    proof { assert(out@ =~= old(out)@ + lit_ev_mid()); }
}

/// The bytes of `,"timestamp":`.
pub open spec fn lit_ev_ts() -> Seq<u8> {
    seq![44u8, 34u8, 116u8, 105u8, 109u8, 101u8, 115u8, 116u8, 97u8, 109u8, 112u8, 34u8, 58u8]
}

/// Appends the bytes of `,"timestamp":`.
pub(crate) fn push_ev_ts(out: &mut Vec<u8>)
    ensures
        final(out)@ == old(out)@ + lit_ev_ts(),
{
    out.push(44u8);
    out.push(34u8);
    out.push(116u8);
    out.push(105u8);
    out.push(109u8);
    out.push(101u8);
    out.push(115u8);
    out.push(116u8);
    out.push(97u8);
    out.push(109u8);
    out.push(112u8);
    out.push(34u8);
    out.push(58u8);
    proof { assert(out@ =~= old(out)@ + lit_ev_ts()); }
}

/// The bytes of `{"type":"subscription_confirmed","subject":"`.
pub open spec fn lit_conf_pre() -> Seq<u8> {
    seq![123u8, 34u8, 116u8, 121u8, 112u8, 101u8, 34u8, 58u8, 34u8, 115u8, 117u8, 98u8, 115u8, 99u8, 114u8, 105u8, 112u8, 116u8, 105u8, 111u8, 110u8, 95u8, 99u8, 111u8, 110u8, 102u8, 105u8, 114u8, 109u8, 101u8, 100u8, 34u8, 44u8, 34u8, 115u8, 117u8, 98u8, 106u8, 101u8, 99u8, 116u8, 34u8, 58u8, 34u8]
}

/// Appends the bytes of `{"type":"subscription_confirmed","subject":"`.
pub(crate) fn push_conf_pre(out: &mut Vec<u8>)
    ensures
        final(out)@ == old(out)@ + lit_conf_pre(),
{
    out.push(123u8);
    out.push(34u8);
    out.push(116u8);
    out.push(121u8);
    out.push(112u8);
    out.push(101u8);
    out.push(34u8);
    out.push(58u8);
    out.push(34u8);
    out.push(115u8);
    out.push(117u8);
    out.push(98u8);
    out.push(115u8);
    out.push(99u8);
    out.push(114u8);
    out.push(105u8);
    out.push(112u8);
    out.push(116u8);
    out.push(105u8);
    out.push(111u8);
    out.push(110u8);
    out.push(95u8);
    out.push(99u8);
    out.push(111u8);
    out.push(110u8);
    out.push(102u8);
    out.push(105u8);
    out.push(114u8);
    out.push(109u8);
    out.push(101u8);
    out.push(100u8);
    out.push(34u8);
    out.push(44u8);
    out.push(34u8);
    out.push(115u8);
    out.push(117u8);
    out.push(98u8);
    out.push(106u8);
    out.push(101u8);
    out.push(99u8);
    out.push(116u8);
    out.push(34u8);
    out.push(58u8);
    out.push(34u8);
    proof { assert(out@ =~= old(out)@ + lit_conf_pre()); }
}

/// The bytes of `","time":"`.
pub open spec fn lit_conf_mid() -> Seq<u8> {
    seq![34u8, 44u8, 34u8, 116u8, 105u8, 109u8, 101u8, 34u8, 58u8, 34u8]
}

/// Appends the bytes of `","time":"`.
pub(crate) fn push_conf_mid(out: &mut Vec<u8>)
    ensures
        final(out)@ == old(out)@ + lit_conf_mid(),
{
    out.push(34u8);
    out.push(44u8);
    out.push(34u8);
    out.push(116u8);
    out.push(105u8);
    out.push(109u8);
    out.push(101u8);
    out.push(34u8);
    out.push(58u8);
    out.push(34u8);
    proof { assert(out@ =~= old(out)@ + lit_conf_mid()); }
}

/// The bytes of `"}`.
pub open spec fn lit_conf_end() -> Seq<u8> {
    seq![34u8, 125u8]
}

/// Appends the bytes of `"}`.
pub(crate) fn push_conf_end(out: &mut Vec<u8>)
    ensures
        final(out)@ == old(out)@ + lit_conf_end(),
{
    out.push(34u8);
    out.push(125u8);
    proof { assert(out@ =~= old(out)@ + lit_conf_end()); }
}

/// The bytes of `{"price":`.
pub open spec fn lit_price_pre() -> Seq<u8> {
    seq![123u8, 34u8, 112u8, 114u8, 105u8, 99u8, 101u8, 34u8, 58u8]
}

/// Appends the bytes of `{"price":`.
pub(crate) fn push_price_pre(out: &mut Vec<u8>)
    ensures
        final(out)@ == old(out)@ + lit_price_pre(),
{
    out.push(123u8);
    out.push(34u8);
    out.push(112u8);
    out.push(114u8);
    out.push(105u8);
    out.push(99u8);
    out.push(101u8);
    out.push(34u8);
    out.push(58u8);
    proof { assert(out@ =~= old(out)@ + lit_price_pre()); }
}

/// The bytes of `,"size":`.
pub open spec fn lit_size_pre() -> Seq<u8> {
    seq![44u8, 34u8, 115u8, 105u8, 122u8, 101u8, 34u8, 58u8]
}

/// Appends the bytes of `,"size":`.
pub(crate) fn push_size_pre(out: &mut Vec<u8>)
    ensures
        final(out)@ == old(out)@ + lit_size_pre(),
{
    out.push(44u8);
    out.push(34u8);
    out.push(115u8);
    out.push(105u8);
    out.push(122u8);
    out.push(101u8);
    out.push(34u8);
    out.push(58u8);
    proof { assert(out@ =~= old(out)@ + lit_size_pre()); }
}

/// The bytes of `,"side":"`.
pub open spec fn lit_side_pre() -> Seq<u8> {
    seq![44u8, 34u8, 115u8, 105u8, 100u8, 101u8, 34u8, 58u8, 34u8]
}

/// Appends the bytes of `,"side":"`.
pub(crate) fn push_side_pre(out: &mut Vec<u8>)
    ensures
        final(out)@ == old(out)@ + lit_side_pre(),
{
    out.push(44u8);
    out.push(34u8);
    out.push(115u8);
    out.push(105u8);
    out.push(100u8);
    out.push(101u8);
    out.push(34u8);
    out.push(58u8);
    out.push(34u8);
    proof { assert(out@ =~= old(out)@ + lit_side_pre()); }
}

/// The bytes of `","exchange":"nex","pair":"BTC-USD"}`.
pub open spec fn lit_trade_tail() -> Seq<u8> {
    seq![34u8, 44u8, 34u8, 101u8, 120u8, 99u8, 104u8, 97u8, 110u8, 103u8, 101u8, 34u8, 58u8, 34u8, 110u8, 101u8, 120u8, 34u8, 44u8, 34u8, 112u8, 97u8, 105u8, 114u8, 34u8, 58u8, 34u8, 66u8, 84u8, 67u8, 45u8, 85u8, 83u8, 68u8, 34u8, 125u8]
}

/// Appends the bytes of `","exchange":"nex","pair":"BTC-USD"}`.
pub(crate) fn push_trade_tail(out: &mut Vec<u8>)
    ensures
        final(out)@ == old(out)@ + lit_trade_tail(),
{
    out.push(34u8);
    out.push(44u8);
    out.push(34u8);
    out.push(101u8);
    out.push(120u8);
    out.push(99u8);
    out.push(104u8);
    out.push(97u8);
    out.push(110u8);
    out.push(103u8);
    out.push(101u8);
    out.push(34u8);
    out.push(58u8);
    out.push(34u8);
    out.push(110u8);
    out.push(101u8);
    out.push(120u8);
    out.push(34u8);
    out.push(44u8);
    out.push(34u8);
    out.push(112u8);
    out.push(97u8);
    out.push(105u8);
    out.push(114u8);
    out.push(34u8);
    out.push(58u8);
    out.push(34u8);
    out.push(66u8);
    out.push(84u8);
    out.push(67u8);
    out.push(45u8);
    out.push(85u8);
    out.push(83u8);
    out.push(68u8);
    out.push(34u8);
    out.push(125u8);
    proof { assert(out@ =~= old(out)@ + lit_trade_tail()); }
}

/// The bytes of `buy`.
pub open spec fn lit_buy() -> Seq<u8> {
    seq![98u8, 117u8, 121u8]
}

/// Appends the bytes of `buy`.
pub(crate) fn push_buy(out: &mut Vec<u8>)
    ensures
        final(out)@ == old(out)@ + lit_buy(),
{
    out.push(98u8);
    out.push(117u8);
    out.push(121u8);
    proof { assert(out@ =~= old(out)@ + lit_buy()); }
}

/// The bytes of `sell`.
pub open spec fn lit_sell() -> Seq<u8> {
    seq![115u8, 101u8, 108u8, 108u8]
}

/// Appends the bytes of `sell`.
pub(crate) fn push_sell(out: &mut Vec<u8>)
    ensures
        final(out)@ == old(out)@ + lit_sell(),
{
    out.push(115u8);
    out.push(101u8);
    out.push(108u8);
    out.push(108u8);
    proof { assert(out@ =~= old(out)@ + lit_sell()); }
}

/// The bytes of `subscribe`.
pub open spec fn lit_subscribe() -> Seq<u8> {
    seq![115u8, 117u8, 98u8, 115u8, 99u8, 114u8, 105u8, 98u8, 101u8]
}

/// Appends the bytes of `subscribe`.
pub(crate) fn push_subscribe(out: &mut Vec<u8>)
    ensures
        final(out)@ == old(out)@ + lit_subscribe(),
{
    out.push(115u8);
    out.push(117u8);
    out.push(98u8);
    out.push(115u8);
    out.push(99u8);
    out.push(114u8);
    out.push(105u8);
    out.push(98u8);
    out.push(101u8);
    proof { assert(out@ =~= old(out)@ + lit_subscribe()); }
}

/// The bytes of `market.btc-usd.trades`.
pub open spec fn lit_default_subject() -> Seq<u8> {
    seq![109u8, 97u8, 114u8, 107u8, 101u8, 116u8, 46u8, 98u8, 116u8, 99u8, 45u8, 117u8, 115u8, 100u8, 46u8, 116u8, 114u8, 97u8, 100u8, 101u8, 115u8]
}

/// Appends the bytes of `market.btc-usd.trades`.
pub(crate) fn push_default_subject(out: &mut Vec<u8>)
    ensures
        final(out)@ == old(out)@ + lit_default_subject(),
{
    out.push(109u8);
    out.push(97u8);
    out.push(114u8);
    out.push(107u8);
    out.push(101u8);
    out.push(116u8);
    out.push(46u8);
    out.push(98u8);
    out.push(116u8);
    out.push(99u8);
    out.push(45u8);
    out.push(117u8);
    out.push(115u8);
    out.push(100u8);
    out.push(46u8);
    out.push(116u8);
    out.push(114u8);
    out.push(97u8);
    out.push(100u8);
    out.push(101u8);
    out.push(115u8);
    proof { assert(out@ =~= old(out)@ + lit_default_subject()); }
}

/// The subject the synthetic generator publishes under.
pub fn default_subject() -> (out: Vec<u8>)
    ensures
        out@ == lit_default_subject(),
{
    let mut out: Vec<u8> = Vec::new();
    push_default_subject(&mut out);
    proof {
        assert(out@ =~= lit_default_subject());
    }
    out
}

/// One escaped byte of a JSON string body: quote and backslash get a
/// backslash escape, control bytes become a `\u00XX` escape, and every other
/// byte (including every byte of a multi-byte UTF-8 sequence) passes through.
pub open spec fn spec_escape_byte(b: u8) -> Seq<u8> {
    if b == 34 {
        seq![92u8, 34u8]
    } else if b == 92 {
        seq![92u8, 92u8]
    } else if b < 32 {
        seq![92u8, 117u8, 48u8, 48u8, spec_hex_digit((b / 16) as u8), spec_hex_digit((b % 16) as u8)]
    } else {
        seq![b]
    }
}

/// The lower-case hexadecimal digit for a value below 16.
pub open spec fn spec_hex_digit(n: u8) -> u8 {
    if n < 10 {
        (48 + n) as u8
    } else {
        (87 + n) as u8
    }
}

/// A byte string escaped for use inside a JSON string literal.
pub open spec fn spec_escaped(s: Seq<u8>) -> Seq<u8>
    decreases s.len(),
{
    if s.len() == 0 {
        Seq::empty()
    } else {
        spec_escaped(s.drop_last()) + spec_escape_byte(s.last())
    }
}

fn hex_digit(n: u8) -> (r: u8)
    requires
        n < 16,
    ensures
        r == spec_hex_digit(n),
{
    if n < 10 {
        48 + n
    } else {
        87 + n
    }
}

/// Appends `s` escaped for a JSON string literal.
pub fn push_escaped(out: &mut Vec<u8>, s: &Vec<u8>)
    ensures
        final(out)@ == old(out)@ + spec_escaped(s@),
{
    let ghost base = out@;
    let mut i: usize = 0;
    while i < s.len()
        invariant
            0 <= i <= s@.len(),
            out@ == base + spec_escaped(s@.take(i as int)),
        decreases s@.len() - i,
    {
        let b = s[i];
        if b == 34 {
            out.push(92);
            out.push(34);
        } else if b == 92 {
            out.push(92);
            out.push(92);
        } else if b < 32 {
            out.push(92);
            out.push(117);
            out.push(48);
            out.push(48);
            out.push(hex_digit(b / 16));
            out.push(hex_digit(b % 16));
        } else {
            out.push(b);
        }
        proof {
            assert(s@.take(i + 1).drop_last() =~= s@.take(i as int));
            assert(s@.take(i + 1).last() == s@[i as int]);
            assert(spec_escaped(s@.take(i + 1)) == spec_escaped(s@.take(i as int))
                + spec_escape_byte(s@[i as int]));
            assert(out@ =~= base + spec_escaped(s@.take(i + 1)));
        }
        i += 1;
    }
    proof {
        assert(s@.take(s@.len() as int) =~= s@);
    }
}

/// The decimal digits of `n`, most significant first, no leading zeros.
pub open spec fn spec_dec(n: nat) -> Seq<u8>
    decreases n,
{
    if n < 10 {
        seq![(48 + n) as u8]
    } else {
        spec_dec(n / 10) + seq![(48 + n % 10) as u8]
    }
}

/// Appends the decimal rendering of `n`.
pub fn push_dec(out: &mut Vec<u8>, n: u64)
    ensures
        final(out)@ == old(out)@ + spec_dec(n as nat),
    decreases n,
{
    if n < 10 {
        out.push(48 + (n as u8));
        proof {
            assert(out@ =~= old(out)@ + spec_dec(n as nat));
        }
    } else {
        push_dec(out, n / 10);
        out.push(48 + ((n % 10) as u8));
        proof {
            assert(out@ =~= old(out)@ + spec_dec(n as nat));
        }
    }
}

/// Two decimal digits with a leading zero, for a value below 100.
pub open spec fn spec_dec2(n: nat) -> Seq<u8> {
    seq![(48 + n / 10) as u8, (48 + n % 10) as u8]
}

/// Appends the two-digit rendering of `n`.
pub fn push_dec2(out: &mut Vec<u8>, n: u64)
    requires
        n < 100,
    ensures
        final(out)@ == old(out)@ + spec_dec2(n as nat),
{
    out.push(48 + ((n / 10) as u8));
    out.push(48 + ((n % 10) as u8));
    proof {
        assert(out@ =~= old(out)@ + spec_dec2(n as nat));
    }
}

/// Three decimal digits with leading zeros, for a value below 1000.
pub open spec fn spec_dec3(n: nat) -> Seq<u8> {
    seq![(48 + n / 100) as u8, (48 + (n / 10) % 10) as u8, (48 + n % 10) as u8]
}

/// Appends the three-digit rendering of `n`.
pub fn push_dec3(out: &mut Vec<u8>, n: u64)
    requires
        n < 1000,
    ensures
        final(out)@ == old(out)@ + spec_dec3(n as nat),
{
    out.push(48 + ((n / 100) as u8));
    out.push(48 + (((n / 10) % 10) as u8));
    out.push(48 + ((n % 10) as u8));
    proof {
        assert(out@ =~= old(out)@ + spec_dec3(n as nat));
    }
}

/// The broadcast data frame for one event: subject, raw JSON payload, and,
/// when present, the millisecond timestamp.
pub open spec fn spec_event_frame(subject: Seq<u8>, payload: Seq<u8>, ts: Option<u64>) -> Seq<u8> {
    lit_ev_pre() + spec_escaped(subject) + lit_ev_mid() + payload + (match ts {
        Some(t) => lit_ev_ts() + spec_dec(t as nat),
        None => Seq::empty(),
    }) + seq![125u8]
}

/// Renders the broadcast data frame. `payload` must already be JSON text for
/// the frame itself to be JSON; the frame's bytes are exact either way.
pub fn render_event_frame(subject: &Vec<u8>, payload: &Vec<u8>, ts: Option<u64>) -> (out: Vec<u8>)
    ensures
        out@ == spec_event_frame(subject@, payload@, ts),
{
    let mut out: Vec<u8> = Vec::new();
    push_ev_pre(&mut out);
    push_escaped(&mut out, subject);
    push_ev_mid(&mut out);
    let mut i: usize = 0;
    let ghost mid = out@;
    while i < payload.len()
        invariant
            0 <= i <= payload@.len(),
            out@ == mid + payload@.take(i as int),
        decreases payload@.len() - i,
    {
        out.push(payload[i]);
        proof {
            assert(out@ =~= mid + payload@.take(i + 1));
        }
        i += 1;
    }
    proof {
        assert(payload@.take(payload@.len() as int) =~= payload@);
    }
    match ts {
        Some(t) => {
            push_ev_ts(&mut out);
            push_dec(&mut out, t);
        },
        None => {},
    }
    out.push(125u8);
    proof {
        assert(out@ =~= spec_event_frame(subject@, payload@, ts));
    }
    out
}

/// The confirmation frame sent back on the same client's channel after a
/// subscription is accepted.
pub open spec fn spec_confirmation_frame(subject: Seq<u8>, time: Seq<u8>) -> Seq<u8> {
    lit_conf_pre() + spec_escaped(subject) + lit_conf_mid() + spec_escaped(time) + lit_conf_end()
}

/// Renders the subscription confirmation frame.
pub fn render_confirmation_frame(subject: &Vec<u8>, time: &Vec<u8>) -> (out: Vec<u8>)
    ensures
        out@ == spec_confirmation_frame(subject@, time@),
{
    let mut out: Vec<u8> = Vec::new();
    push_conf_pre(&mut out);
    push_escaped(&mut out, subject);
    push_conf_mid(&mut out);
    push_escaped(&mut out, time);
    push_conf_end(&mut out);
    proof {
        assert(out@ =~= spec_confirmation_frame(subject@, time@));
    }
    out
}

/// The synthetic trade payload: price in cents and size in thousandths are
/// rendered as fixed-point decimals, the side is `buy` or `sell`.
pub open spec fn spec_trade_payload(price_cents: u64, size_milli: u64, buy: bool) -> Seq<u8> {
    lit_price_pre() + spec_dec(price_cents as nat / 100) + seq![46u8] + spec_dec2(
        price_cents as nat % 100,
    ) + lit_size_pre() + spec_dec(size_milli as nat / 1000) + seq![46u8] + spec_dec3(
        size_milli as nat % 1000,
    ) + lit_side_pre() + (if buy {
        lit_buy()
    } else {
        lit_sell()
    }) + lit_trade_tail()
}

/// Renders the synthetic trade payload.
pub fn render_trade_payload(price_cents: u64, size_milli: u64, buy: bool) -> (out: Vec<u8>)
    ensures
        out@ == spec_trade_payload(price_cents, size_milli, buy),
{
    let mut out: Vec<u8> = Vec::new();
    push_price_pre(&mut out);
    push_dec(&mut out, price_cents / 100);
    out.push(46u8);
    push_dec2(&mut out, price_cents % 100);
    push_size_pre(&mut out);
    push_dec(&mut out, size_milli / 1000);
    out.push(46u8);
    push_dec3(&mut out, size_milli % 1000);
    push_side_pre(&mut out);
    if buy {
        push_buy(&mut out);
    } else {
        push_sell(&mut out);
    }
    push_trade_tail(&mut out);
    proof {
        assert(out@ =~= spec_trade_payload(price_cents, size_milli, buy));
    }
    out
}

} // verus!
