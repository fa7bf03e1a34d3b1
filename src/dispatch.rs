use vstd::prelude::*;
use crate::color::UNIT;

verus! {

/// Sleep between UDP sends while sends succeed (ms).
pub const FAST_MS: u64 = 20;
/// Sleep after a failed UDP send (ms).
pub const BACKOFF_MS: u64 = 1000;

/// Channel `c` scaled by the fraction `opacity / UNIT`, rounded half up.
pub open spec fn dimmed(c: int, opacity: int) -> int {
    (c * opacity + UNIT as int / 2) / UNIT as int
}

/// The display correction: a yellow with little blue has its green lowered.
pub open spec fn corrected(r: int, g: int, b: int) -> (int, int, int) {
    if r > 240 && b < 20 && g > 220 {
        (r, g - 60, b)
    } else {
        (r, g, b)
    }
}

/// The channels sent for `(r, g, b)` at `opacity`: dimmed, then corrected.
pub open spec fn output_rgb(r: int, g: int, b: int, opacity: int) -> (int, int, int) {
    corrected(dimmed(r, opacity), dimmed(g, opacity), dimmed(b, opacity))
}

/// ASCII decimal digits of `n`, without leading zeros.
pub open spec fn decimal(n: nat) -> Seq<u8>
    decreases n,
{
    if n < 10 {
        seq![(48 + n) as u8]
    } else {
        decimal(n / 10) + seq![(48 + n % 10) as u8]
    }
}

/// `"R G B"` in decimal.
pub open spec fn rgb_text(r: u8, g: u8, b: u8) -> Seq<u8> {
    decimal(r as nat) + seq![32u8] + decimal(g as nat) + seq![32u8] + decimal(b as nat)
}

/// `"R G B\n"`.
pub open spec fn text_line(r: u8, g: u8, b: u8) -> Seq<u8> {
    rgb_text(r, g, b) + seq![10u8]
}

/// `"R G B interval\n"`.
pub open spec fn text_line_with_interval(r: u8, g: u8, b: u8, interval: u16) -> Seq<u8> {
    rgb_text(r, g, b) + seq![32u8] + decimal(interval as nat) + seq![10u8]
}

/// `[R, G, B, interval low byte, interval high byte]`.
pub open spec fn binary_frame(r: u8, g: u8, b: u8, interval: u16) -> Seq<u8> {
    seq![r, g, b, (interval % 256) as u8, (interval / 256) as u8]
}

/// The bytes `"HTTP"`.
pub open spec fn http_tag() -> Seq<u8> {
    seq![72u8, 84u8, 84u8, 80u8]
}

/// Whether `req` holds `"HTTP"` somewhere.
pub open spec fn mentions_http(req: Seq<u8>) -> bool {
    exists|i: int| 0 <= i && i + 4 <= req.len() && #[trigger] req.subrange(i, i + 4) == http_tag()
}

/// Status line and headers of the HTTP-shaped reply:
/// `"HTTP/1.1 200 OK\r\nContent-Type: text/plain\r\nAccess-Control-Allow-Origin: *\r\n\r\n"`.
pub open spec fn http_head() -> Seq<u8> {
    seq![
        72u8, 84u8, 84u8, 80u8, 47u8, 49u8, 46u8, 49u8, 32u8, 50u8, 48u8, 48u8,
        32u8, 79u8, 75u8, 13u8, 10u8, 67u8, 111u8, 110u8, 116u8, 101u8, 110u8, 116u8,
        45u8, 84u8, 121u8, 112u8, 101u8, 58u8, 32u8, 116u8, 101u8, 120u8, 116u8, 47u8,
        112u8, 108u8, 97u8, 105u8, 110u8, 13u8, 10u8, 65u8, 99u8, 99u8, 101u8, 115u8,
        115u8, 45u8, 67u8, 111u8, 110u8, 116u8, 114u8, 111u8, 108u8, 45u8, 65u8, 108u8,
        108u8, 111u8, 119u8, 45u8, 79u8, 114u8, 105u8, 103u8, 105u8, 110u8, 58u8, 32u8,
        42u8, 13u8, 10u8, 13u8, 10u8,
    ]
}

/// The reply to a TCP request `req` while the color is `(r, g, b)`.
pub open spec fn tcp_reply(req: Seq<u8>, r: u8, g: u8, b: u8) -> Seq<u8> {
    if mentions_http(req) {
        http_head() + rgb_text(r, g, b)
    } else {
        text_line(r, g, b)
    }
}

/// Scales a channel by `opacity` (millionths), rounding half up.
pub fn apply_opacity(c: u8, opacity: u64) -> (r: u8)
    requires
        opacity <= UNIT,
    ensures
        r as int == dimmed(c as int, opacity as int),
{
    assert(0 <= c as int * opacity as int <= 255 * UNIT as int) by (nonlinear_arith)
        requires c <= 255, opacity <= UNIT;
    let p: u64 = (c as u64) * opacity + UNIT / 2;
    (p / UNIT) as u8
}

/// Applies opacity to each channel, then the display correction.
pub fn output_channels(red: u8, green: u8, blue: u8, opacity: u64) -> (r: (u8, u8, u8))
    requires
        opacity <= UNIT,
    ensures
        (r.0 as int, r.1 as int, r.2 as int) == output_rgb(
            red as int,
            green as int,
            blue as int,
            opacity as int,
        ),
{
    let r = apply_opacity(red, opacity);
    let g = apply_opacity(green, opacity);
    let b = apply_opacity(blue, opacity);
    if r > 240 && b < 20 && g > 220 {
        (r, g - 60, b)
    } else {
        (r, g, b)
    }
}

/// Appends the decimal digits of `n`.
pub fn push_decimal(out: &mut Vec<u8>, n: u64)
    ensures
        final(out)@ == old(out)@ + decimal(n as nat),
    decreases n,
{
    if n >= 10 {
        push_decimal(out, n / 10);
    }
    out.push(48 + (n % 10) as u8);
    assert(out@ =~= old(out)@ + decimal(n as nat));
}

fn push_rgb(out: &mut Vec<u8>, r: u8, g: u8, b: u8)
    ensures
        final(out)@ == old(out)@ + rgb_text(r, g, b),
{
    push_decimal(out, r as u64);
    out.push(32);
    push_decimal(out, g as u64);
    out.push(32);
    push_decimal(out, b as u64);
    assert(final(out)@ =~= old(out)@ + rgb_text(r, g, b));
}

/// `"R G B\n"`.
pub fn encode_text(r: u8, g: u8, b: u8) -> (out: Vec<u8>)
    ensures
        out@ == text_line(r, g, b),
{
    let mut out: Vec<u8> = Vec::new();
    push_rgb(&mut out, r, g, b);
    out.push(10);
    assert(out@ =~= text_line(r, g, b));
    out
}

/// `"R G B interval\n"`.
pub fn encode_text_with_interval(r: u8, g: u8, b: u8, interval: u16) -> (out: Vec<u8>)
    ensures
        out@ == text_line_with_interval(r, g, b, interval),
{
    let mut out: Vec<u8> = Vec::new();
    push_rgb(&mut out, r, g, b);
    out.push(32);
    push_decimal(&mut out, interval as u64);
    out.push(10);
    assert(out@ =~= text_line_with_interval(r, g, b, interval));
    out
}

/// The 5-byte binary UDP frame, interval little-endian.
pub fn encode_binary(r: u8, g: u8, b: u8, interval: u16) -> (out: [u8; 5])
    ensures
        out@ == binary_frame(r, g, b, interval),
{
    let out: [u8; 5] = [r, g, b, (interval % 256) as u8, (interval / 256) as u8];
    assert(out@ =~= binary_frame(r, g, b, interval));
    out
}

/// Whether the request bytes contain `"HTTP"`.
pub fn contains_http(req: &[u8]) -> (r: bool)
    ensures
        r == mentions_http(req@),
{
    let n = req.len();
    if n < 4 {
        proof {
            assert forall|i: int| 0 <= i && i + 4 <= req@.len() implies #[trigger] req@.subrange(
                i,
                i + 4,
            ) != http_tag() by {}
        }
        return false;
    }
    let mut i: usize = 0;
    while i <= n - 4
        invariant
            n == req@.len(),
            n >= 4,
            i <= n - 3,
            forall|j: int| 0 <= j < i ==> #[trigger] req@.subrange(j, j + 4) != http_tag(),
        decreases n - i,
    {
        if req[i] == 72 && req[i + 1] == 84 && req[i + 2] == 84 && req[i + 3] == 80 {
            assert(req@.subrange(i as int, i + 4) =~= http_tag());
            return true;
        }
        assert(req@.subrange(i as int, i + 4)[0] == req@[i as int]);
        assert(req@.subrange(i as int, i + 4)[1] == req@[i + 1]);
        assert(req@.subrange(i as int, i + 4)[2] == req@[i + 2]);
        assert(req@.subrange(i as int, i + 4)[3] == req@[i + 3]);
        i = i + 1;
    }
    false
}

/// The reply to one TCP read: the HTTP-shaped reply when the request
/// mentions `"HTTP"`, else just `"R G B\n"`.
pub fn tcp_response(request: &[u8], r: u8, g: u8, b: u8) -> (out: Vec<u8>)
    ensures
        out@ == tcp_reply(request@, r, g, b),
{
    if contains_http(request) {
        let mut out: Vec<u8> = vec![
        72u8, 84u8, 84u8, 80u8, 47u8, 49u8, 46u8, 49u8, 32u8, 50u8, 48u8, 48u8,
        32u8, 79u8, 75u8, 13u8, 10u8, 67u8, 111u8, 110u8, 116u8, 101u8, 110u8, 116u8,
        45u8, 84u8, 121u8, 112u8, 101u8, 58u8, 32u8, 116u8, 101u8, 120u8, 116u8, 47u8,
        112u8, 108u8, 97u8, 105u8, 110u8, 13u8, 10u8, 65u8, 99u8, 99u8, 101u8, 115u8,
        115u8, 45u8, 67u8, 111u8, 110u8, 116u8, 114u8, 111u8, 108u8, 45u8, 65u8, 108u8,
        108u8, 111u8, 119u8, 45u8, 79u8, 114u8, 105u8, 103u8, 105u8, 110u8, 58u8, 32u8,
        42u8, 13u8, 10u8, 13u8, 10u8,
        ];
        assert(out@ =~= http_head());
        push_rgb(&mut out, r, g, b);
        out
    } else {
        encode_text(r, g, b)
    }
}

/// Send cadence of the UDP pusher.
#[derive(Clone, Copy, Debug)]
pub struct UdpPacer {
    /// Failed sends since the last success, saturating.
    pub consecutive_failures: u64,
}

impl UdpPacer {
    pub fn new() -> (r: UdpPacer)
        ensures
            r.consecutive_failures == 0,
    {
        UdpPacer { consecutive_failures: 0 }
    }

    /// Records the outcome of a send and returns how long to sleep (ms):
    /// the fast cadence after a success, the back-off after a failure.
    pub fn after_send(&mut self, sent: bool) -> (delay: u64)
        ensures
            delay == if sent { FAST_MS } else { BACKOFF_MS },
            final(self).consecutive_failures == if sent {
                0
            } else if old(self).consecutive_failures == u64::MAX {
                u64::MAX
            } else {
                (old(self).consecutive_failures + 1) as u64
            },
    {
        if sent {
            self.consecutive_failures = 0;
            FAST_MS
        } else {
            if self.consecutive_failures < u64::MAX {
                self.consecutive_failures = self.consecutive_failures + 1;
            }
            BACKOFF_MS
        }
    }
}

} // verus!
