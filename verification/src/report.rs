//! The text of sample records, dump headers and notifications.
//!
//! Pressures, temperatures and times arrive here already written out: two
//! decimal places for a number, `YYYY-MM-DD HH:MM` for a record's time and
//! `HH:MM` for a notification's. These functions put the pieces in their
//! places.

use vstd::prelude::*;
use crate::text::{decimal, decimal_text};
use crate::trend::Trend;

verus! {

/// A history record: pressure, temperature, change since the previous sample
/// and time, one space apart, then the time in seconds since the epoch in
/// round brackets.
pub open spec fn record_of(
    pressure: Seq<char>,
    temperature: Seq<char>,
    delta: Seq<char>,
    stamp: Seq<char>,
    epoch: nat,
) -> Seq<char> {
    pressure + seq![' '] + temperature + seq![' '] + delta + seq![' '] + stamp + seq![' ', '(']
        + decimal(epoch) + seq![')']
}

/// A notification: `Pressure`, the trend word and the change; after a colon
/// the current, highest and lowest pressure of the window; then the time.
pub open spec fn notice_of(
    trend: Trend,
    delta: Seq<char>,
    current: Seq<char>,
    high: Seq<char>,
    low: Seq<char>,
    time: Seq<char>,
) -> Seq<char> {
    "Pressure "@ + trend.name() + seq![' '] + delta + ": current "@ + current + ", max "@ + high
        + ", min "@ + low + " at "@ + time
}

/// The first line of a dump: how many samples the current window has, and
/// its first, highest, lowest and latest pressure.
pub open spec fn header_of(
    samples: nat,
    first: Seq<char>,
    high: Seq<char>,
    low: Seq<char>,
    latest: Seq<char>,
) -> Seq<char> {
    "samples "@ + decimal(samples) + " first "@ + first + " max "@ + high + " min "@ + low
        + " last "@ + latest
}

/// Writes a history record.
pub fn record_line(pressure: &str, temperature: &str, delta: &str, stamp: &str, epoch: u64) -> (r:
    String)
    ensures
        r@ == record_of(pressure@, temperature@, delta@, stamp@, epoch as nat),
{
    proof {
        reveal_strlit(" ");
        reveal_strlit(" (");
        reveal_strlit(")");
        assert(" "@ =~= seq![' ']);
        assert(" ("@ =~= seq![' ', '(']);
        assert(")"@ =~= seq![')']);
    }
    let seconds = decimal_text(epoch);
    let mut line = String::from_str(pressure);
    line.append(" ");
    line.append(temperature);
    line.append(" ");
    line.append(delta);
    line.append(" ");
    line.append(stamp);
    line.append(" (");
    line.append(seconds.as_str());
    line.append(")");
    line
}

/// Writes a notification.
pub fn notification_text(
    trend: Trend,
    delta: &str,
    current: &str,
    high: &str,
    low: &str,
    time: &str,
) -> (r: String)
    ensures
        r@ == notice_of(trend, delta@, current@, high@, low@, time@),
{
    proof {
        reveal_strlit(" ");
        assert(" "@ =~= seq![' ']);
    }
    let mut text = String::from_str("Pressure ");
    text.append(trend.word());
    text.append(" ");
    text.append(delta);
    text.append(": current ");
    text.append(current);
    text.append(", max ");
    text.append(high);
    text.append(", min ");
    text.append(low);
    text.append(" at ");
    text.append(time);
    text
}

/// Writes the first line of a dump.
pub fn header_line(samples: u32, first: &str, high: &str, low: &str, latest: &str) -> (r: String)
    ensures
        r@ == header_of(samples as nat, first@, high@, low@, latest@),
{
    let count = decimal_text(samples as u64);
    let mut line = String::from_str("samples ");
    line.append(count.as_str());
    line.append(" first ");
    line.append(first);
    line.append(" max ");
    line.append(high);
    line.append(" min ");
    line.append(low);
    line.append(" last ");
    line.append(latest);
    line
}

} // verus!
