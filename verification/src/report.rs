//! The report line of one iteration, as ASCII bytes.
//!
//! Times are written in seconds with nine decimal places, the achieved rate
//! in messages per second with six.

use vstd::prelude::*;
use vstd::string::StringSliceAdditionalSpecFns;
use crate::publisher::Report;

verus! {

/// The ASCII digit for `d`, which is below ten.
pub open spec fn digit_byte(d: int) -> u8
    recommends
        0 <= d < 10,
{
    (48 + d) as u8
}

/// `n` in decimal, without leading zeros.
pub open spec fn decimal(n: nat) -> Seq<u8>
    decreases n,
{
    if n < 10 {
        seq![digit_byte(n as int)]
    } else {
        decimal(n / 10).push(digit_byte((n % 10) as int))
    }
}

/// The last `width` decimal digits of `n`, zeros included.
pub open spec fn padded(n: nat, width: nat) -> Seq<u8>
    decreases width,
{
    if width == 0 {
        Seq::empty()
    } else {
        padded(n / 10, (width - 1) as nat).push(digit_byte((n % 10) as int))
    }
}

/// `n` counted in `unit`-ths, written as whole part, point, and `places`
/// digits of fraction.
pub open spec fn fixed(n: nat, unit: nat, places: nat) -> Seq<u8>
    recommends
        unit > 0,
{
    decimal(n / unit) + seq![46u8] + padded(n % unit, places)
}

/// A signed count of nanoseconds, written in seconds.
pub open spec fn seconds(nanos: int) -> Seq<u8> {
    if nanos < 0 {
        seq![45u8] + fixed((-nanos) as nat, 1_000_000_000, 9)
    } else {
        fixed(nanos as nat, 1_000_000_000, 9)
    }
}

/// A rate in micro-hertz, written in messages per second; the word
/// `undefined` where there is none.
pub open spec fn hertz(rate: Option<u64>) -> Seq<u8> {
    match rate {
        Some(micro) => fixed(micro as nat, 1_000_000, 6),
        None => "undefined".spec_bytes(),
    }
}

/// The line that reports one iteration: timestamp, achieved rate,
/// configured rate and elapsed time, in this order.
pub open spec fn line_of(report: Report) -> Seq<u8> {
    "[TS: ".spec_bytes() + seconds(report.sample.timestamp as int)
        + " - FPS(real): ".spec_bytes() + hertz(report.achieved)
        + " - FPS(configured): ".spec_bytes() + decimal(report.configured as nat)
        + " - Elapsed: ".spec_bytes() + seconds(report.sample.elapsed as int)
        + "]".spec_bytes()
}

/// Appends the bytes of `text`.
pub fn push_text(out: &mut Vec<u8>, text: &str)
    ensures
        final(out)@ == old(out)@ + text.spec_bytes(),
{
    let bytes: &[u8] = text.as_bytes();
    let mut i: usize = 0;
    while i < bytes.len()
        invariant
            i <= bytes@.len(),
            bytes@ == text.spec_bytes(),
            out@ == old(out)@ + bytes@.take(i as int),
        decreases bytes@.len() - i,
    {
        out.push(bytes[i]);
        i += 1;
        assert(out@ =~= old(out)@ + bytes@.take(i as int));
    }
    assert(bytes@.take(i as int) =~= bytes@);
}

/// Appends `n` in decimal.
pub fn push_decimal(out: &mut Vec<u8>, n: u128)
    ensures
        final(out)@ == old(out)@ + decimal(n as nat),
    decreases n,
{
    if n >= 10 {
        push_decimal(out, n / 10);
    }
    let d: u8 = (n % 10) as u8;
    out.push(48 + d);
    assert(out@ =~= old(out)@ + decimal(n as nat));
}

/// Appends the last `width` decimal digits of `n`.
pub fn push_padded(out: &mut Vec<u8>, n: u128, width: usize)
    ensures
        final(out)@ == old(out)@ + padded(n as nat, width as nat),
        final(out)@.len() == old(out)@.len() + width,
    decreases width,
{
    if width > 0 {
        push_padded(out, n / 10, width - 1);
        let d: u8 = (n % 10) as u8;
        out.push(48 + d);
    }
    assert(out@ =~= old(out)@ + padded(n as nat, width as nat));
}

/// Appends `n` counted in `unit`-ths: whole part, point, `places` digits.
pub fn push_fixed(out: &mut Vec<u8>, n: u128, unit: u128, places: usize)
    requires
        unit > 0,
    ensures
        final(out)@ == old(out)@ + fixed(n as nat, unit as nat, places as nat),
{
    push_decimal(out, n / unit);
    out.push(46);
    push_padded(out, n % unit, places);
    assert(out@ =~= old(out)@ + fixed(n as nat, unit as nat, places as nat));
}

/// Appends a signed count of nanoseconds, written in seconds.
pub fn push_seconds(out: &mut Vec<u8>, nanos: i128)
    ensures
        final(out)@ == old(out)@ + seconds(nanos as int),
{
    if nanos < 0 {
        let magnitude: u128 = (-(nanos + 1)) as u128 + 1;
        out.push(45);
        push_fixed(out, magnitude, 1_000_000_000, 9);
    } else {
        push_fixed(out, nanos as u128, 1_000_000_000, 9);
    }
    assert(out@ =~= old(out)@ + seconds(nanos as int));
}

/// Appends a rate given in micro-hertz, or `undefined`.
pub fn push_hertz(out: &mut Vec<u8>, rate: Option<u64>)
    ensures
        final(out)@ == old(out)@ + hertz(rate),
{
    match rate {
        Some(micro) => push_fixed(out, micro as u128, 1_000_000, 6),
        None => push_text(out, "undefined"),
    }
}

/// Writes the line that reports one iteration.
pub fn report_line(report: &Report) -> (line: Vec<u8>)
    ensures
        line@ == line_of(*report),
{
    let mut line: Vec<u8> = Vec::new();
    push_text(&mut line, "[TS: ");
    push_seconds(&mut line, report.sample.timestamp as i128);
    push_text(&mut line, " - FPS(real): ");
    push_hertz(&mut line, report.achieved);
    push_text(&mut line, " - FPS(configured): ");
    push_decimal(&mut line, report.configured as u128);
    push_text(&mut line, " - Elapsed: ");
    push_seconds(&mut line, report.sample.elapsed);
    push_text(&mut line, "]");
    assert(line@ =~= line_of(*report));
    line
}

} // verus!
